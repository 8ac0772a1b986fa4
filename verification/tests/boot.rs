//! Runs of the bring-up machine: the single-core boot, the four-core boot,
//! a failed primary, and the boot gate's observable behaviour.

use bringup::machine::{Action, PrimaryStage, SecondaryStage, System};

fn primary_actions() -> Vec<Action> {
    vec![
        Action::StartOthers,
        Action::InitLogging,
        Action::InitTrap,
        Action::InitMemory,
        Action::InitBoard,
        Action::InitModules,
        Action::InitDrivers,
        Action::EmitBanner,
        Action::InitProcess,
        Action::OpenGate,
        Action::EnterKmain,
    ]
}

fn secondary_actions() -> Vec<Action> {
    vec![
        Action::EmitIdentity,
        Action::InitTrap,
        Action::ActivateMemory,
        Action::EnterKmain,
    ]
}

#[test]
fn gate_starts_not_ready() {
    let sys = System::new(2);
    assert!(!sys.gate.poll());
    assert_eq!(sys.primary, PrimaryStage::Reset);
    assert_eq!(sys.secondaries, vec![SecondaryStage::Reset, SecondaryStage::Reset]);
}

#[test]
fn gate_opens_exactly_at_step_ten_and_never_reverses() {
    let mut sys = System::new(1);
    // Steps 1..=9 leave the boot gate closed.
    for step in 1..=9 {
        sys.primary_step();
        assert!(!sys.gate.poll(), "boot gate open after step {}", step);
    }
    // Step 10 opens it; it stays open from then on.
    assert_eq!(sys.primary_step(), Action::OpenGate);
    assert!(sys.gate.poll());
    sys.primary_step();
    assert!(sys.gate.poll());
    for _ in 0..100 {
        assert!(sys.gate.poll());
    }
}

#[test]
fn scenario_single_core() {
    // A single-core system: the primary runs all eleven steps, opens the
    // boot gate, and no secondary ever polls it.
    let mut sys = System::new(0);
    let log = sys.master_main();
    assert_eq!(log, primary_actions());
    assert_eq!(sys.primary, PrimaryStage::Running);
    assert!(sys.gate.poll());
    assert!(sys.secondaries.is_empty());
}

#[test]
fn scenario_four_cores() {
    // A 4-core system: three secondaries emit their identity lines and spin
    // on the boot gate while the primary runs its pipeline; once the boot gate opens,
    // each observes "ready" on its next poll and finishes its own path.
    let mut sys = System::new(3);

    // Two secondaries start running before the primary finishes.
    assert_eq!(sys.secondary_step(0), Some(Action::EmitIdentity));
    assert_eq!(sys.secondary_step(1), Some(Action::EmitIdentity));
    // Their spin makes no progress while the boot gate is closed.
    for _ in 0..10 {
        assert_eq!(sys.secondary_step(0), None);
        assert_eq!(sys.secondary_step(1), None);
        assert_eq!(sys.secondaries[0], SecondaryStage::Greeted);
        assert_eq!(sys.secondaries[1], SecondaryStage::Greeted);
    }

    let log = sys.master_main();
    assert_eq!(log, primary_actions());

    // One bounded poll now suffices for each spinning core.
    assert_eq!(sys.secondary_step(0), None);
    assert_eq!(sys.secondaries[0], SecondaryStage::Passed);
    assert_eq!(sys.secondary_step(1), None);
    assert_eq!(sys.secondaries[1], SecondaryStage::Passed);

    // They complete the rest of their five-step path.
    for i in 0..2 {
        assert_eq!(sys.secondary_step(i), Some(Action::InitTrap));
        assert_eq!(sys.secondary_step(i), Some(Action::ActivateMemory));
        assert_eq!(sys.secondary_step(i), Some(Action::EnterKmain));
        assert_eq!(sys.secondaries[i], SecondaryStage::Running);
    }

    // The third secondary was slow to start: its whole path runs once the
    // boot gate has opened.
    let log = sys.others_main(2);
    assert_eq!(log, secondary_actions());
    assert_eq!(sys.secondaries[2], SecondaryStage::Running);
    assert_eq!(sys.primary, PrimaryStage::Running);
}

#[test]
fn scenario_failed_primary_keeps_secondaries_spinning() {
    // Fault injection: the primary stops after global memory initialization,
    // before the boot gate would open.  The boot gate never reads "ready" and no
    // secondary moves past its spin.
    let mut sys = System::new(3);
    let mut done = Vec::new();
    for _ in 0..4 {
        done.push(sys.primary_step());
    }
    assert_eq!(
        done,
        vec![Action::StartOthers, Action::InitLogging, Action::InitTrap, Action::InitMemory]
    );
    // The primary halts here; the secondaries spin forever.
    for i in 0..3 {
        assert_eq!(sys.secondary_step(i), Some(Action::EmitIdentity));
    }
    for _ in 0..50 {
        for i in 0..3 {
            assert_eq!(sys.secondary_step(i), None);
            assert_eq!(sys.secondaries[i], SecondaryStage::Greeted);
        }
        assert!(!sys.gate.poll());
    }
}

#[test]
fn secondary_path_step_by_step() {
    let mut sys = System::new(1);
    sys.master_main();
    assert_eq!(sys.secondary_step(0), Some(Action::EmitIdentity));
    assert_eq!(sys.secondary_step(0), None);
    assert_eq!(sys.secondary_step(0), Some(Action::InitTrap));
    assert_eq!(sys.secondary_step(0), Some(Action::ActivateMemory));
    assert_eq!(sys.secondary_step(0), Some(Action::EnterKmain));
    assert_eq!(sys.secondaries[0], SecondaryStage::Running);
}
