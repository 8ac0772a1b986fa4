//! The identity line, the decimal rendering it uses, the banner, and the
//! boot gate and register primitives taken on their own.

use bringup::banner::{fmt_u64, identity_line, logo};
use bringup::gate::BootGate;
use bringup::regs::{get_sp, set_sp, CoreRegs};

#[test]
fn identity_line_core_two_on_raspi3() {
    // Core 2 of a 4-core board named "RaspberryPi3".
    let board = b"RaspberryPi3".to_vec();
    let line = identity_line(&board, 2);
    assert_eq!(line, b"Hello RaspberryPi3! from CPU 2".to_vec());
}

#[test]
fn identity_line_other_boards_and_cores() {
    assert_eq!(identity_line(&b"Board".to_vec(), 0), b"Hello Board! from CPU 0".to_vec());
    assert_eq!(identity_line(&b"".to_vec(), 17), b"Hello ! from CPU 17".to_vec());
    assert_eq!(
        identity_line(&b"RaspberryPi3".to_vec(), 123),
        b"Hello RaspberryPi3! from CPU 123".to_vec()
    );
}

#[test]
fn decimal_rendering_exact() {
    assert_eq!(fmt_u64(0), b"0".to_vec());
    assert_eq!(fmt_u64(7), b"7".to_vec());
    assert_eq!(fmt_u64(10), b"10".to_vec());
    assert_eq!(fmt_u64(42), b"42".to_vec());
    assert_eq!(fmt_u64(12345), b"12345".to_vec());
    assert_eq!(fmt_u64(u64::MAX), b"18446744073709551615".to_vec());
}

#[test]
fn banner_is_the_fixed_ascii_art() {
    let text = logo();
    assert!(text.starts_with('\n'));
    assert_eq!(text.lines().count(), 6);
    assert!(text.contains("____"));
    assert!(text.is_ascii());
}

#[test]
fn gate_signal_then_await() {
    let mut gate = BootGate::new();
    assert!(!gate.poll());
    gate.signal_ready();
    assert!(gate.poll());
    gate.await_ready();
    assert!(gate.poll());
}

#[test]
fn stack_pointer_round_trip() {
    let mut regs = CoreRegs { sp: 0 };
    for v in [0usize, 1, 4096, 0xffff_8000_0001_0000, usize::MAX] {
        set_sp(&mut regs, v);
        assert_eq!(get_sp(&regs), v);
    }
}
