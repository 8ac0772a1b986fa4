//! Diagnostic console text: the per-core identity line and the static
//! startup banner.
//!
//! The identity line is the one piece of output every core emits, of the
//! shape `Hello <board-name>! from CPU <core-id>`.  It is built here as a
//! byte string with an exact contract; the unverified entry code hands it
//! to whatever early console the board offers.

use vstd::prelude::*;

verus! {

/// The decimal digits of `n`, most significant first, as ASCII bytes.
pub open spec fn dec_digits(n: nat) -> Seq<u8>
    decreases n,
{
    if n < 10 {
        seq![(n + 48) as u8]
    } else {
        dec_digits(n / 10).push(((n % 10) + 48) as u8)
    }
}

/// The bytes of `Hello ` (with the trailing space).
pub open spec fn hello_prefix() -> Seq<u8> {
    seq![72u8, 101u8, 108u8, 108u8, 111u8, 32u8]
}

/// The bytes of `! from CPU ` (with both spaces).
pub open spec fn cpu_infix() -> Seq<u8> {
    seq![33u8, 32u8, 102u8, 114u8, 111u8, 109u8, 32u8, 67u8, 80u8, 85u8, 32u8]
}

/// The identity line a core with identifier `id` emits on a board named
/// `board`: `Hello <board>! from CPU <id>`.
pub open spec fn identity_text(board: Seq<u8>, id: nat) -> Seq<u8> {
    hello_prefix() + board + cpu_infix() + dec_digits(id)
}

/// Render `n` in decimal, most significant digit first, as ASCII bytes.
pub fn fmt_u64(n: u64) -> (r: Vec<u8>)
    ensures
        r@ == dec_digits(n as nat),
    decreases n,
{
    if n < 10 {
        let mut r: Vec<u8> = Vec::new();
        r.push((n as u8) + 48);
        proof {
            assert(r@ =~= dec_digits(n as nat));
        }
        r
    } else {
        let mut r = fmt_u64(n / 10);
        r.push(((n % 10) as u8) + 48);
        proof {
            assert(r@ =~= dec_digits(n as nat));
        }
        r
    }
}

/// Build the identity line for core `id` on the board named `board`.
pub fn identity_line(board: &Vec<u8>, id: u64) -> (r: Vec<u8>)
    ensures
        r@ == identity_text(board@, id as nat),
{
    let mut r: Vec<u8> = Vec::new();
    r.push(72u8);  // 'H'
    r.push(101u8);  // 'e'
    r.push(108u8);  // 'l'
    r.push(108u8);  // 'l'
    r.push(111u8);  // 'o'
    r.push(32u8);  // ' '
    proof {
        assert(r@ =~= hello_prefix());
    }
    let mut j: usize = 0;
    while j < board.len()
        invariant
            j <= board.len(),
            r@ == hello_prefix() + board@.take(j as int),
        decreases board.len() - j,
    {
        r.push(board[j]);
        j = j + 1;
        proof {
            assert(r@ =~= hello_prefix() + board@.take(j as int));
        }
    }
    proof {
        assert(board@.take(board@.len() as int) =~= board@);
    }
    r.push(33u8);  // '!'
    r.push(32u8);  // ' '
    r.push(102u8);  // 'f'
    r.push(114u8);  // 'r'
    r.push(111u8);  // 'o'
    r.push(109u8);  // 'm'
    r.push(32u8);  // ' '
    r.push(67u8);  // 'C'
    r.push(80u8);  // 'P'
    r.push(85u8);  // 'U'
    r.push(32u8);  // ' '
    proof {
        assert(r@ =~= hello_prefix() + board@ + cpu_infix());
    }
    let mut digits = fmt_u64(id);
    r.append(&mut digits);
    proof {
        assert(r@ =~= identity_text(board@, id as nat));
    }
    r
}

/// The static startup banner the primary core emits once, after driver
/// initialization.  Diagnostic only: nothing reads it back.
pub open spec fn logo_text() -> Seq<char> {
    r#"
    ____                __   ____  _____
   / __ \ __  __ _____ / /_ / __ \/ ___/
  / /_/ // / / // ___// __// / / /\__ \
 / _, _// /_/ /(__  )/ /_ / /_/ /___/ /
/_/ |_| \__,_//____/ \__/ \____//____/
"#@
}

/// The banner as a string, for the entry code to print.
pub fn logo() -> (r: &'static str)
    ensures
        r@ == logo_text(),
{
    r#"
    ____                __   ____  _____
   / __ \ __  __ _____ / /_ / __ \/ ___/
  / /_/ // / / // ___// __// / / /\__ \
 / _, _// /_/ /(__  )/ /_ / /_/ /___/ /
/_/ |_| \__,_//____/ \__/ \____//____/
"#
}

} // verus!
