//! Decimal rendering of integers, used when a predicate deparses a cell into
//! its textual literal form.

use vstd::prelude::*;
use vstd::string::*;

verus! {

/// The character for a single decimal digit.
pub open spec fn digit_char(d: nat) -> char {
    if d == 0 {
        '0'
    } else if d == 1 {
        '1'
    } else if d == 2 {
        '2'
    } else if d == 3 {
        '3'
    } else if d == 4 {
        '4'
    } else if d == 5 {
        '5'
    } else if d == 6 {
        '6'
    } else if d == 7 {
        '7'
    } else if d == 8 {
        '8'
    } else {
        '9'
    }
}

/// The decimal digits of `n`, most significant first, with no leading zeros
/// (a single `'0'` for zero).
pub open spec fn dec_seq(n: nat) -> Seq<char>
    decreases n,
{
    if n < 10 {
        seq![digit_char(n)]
    } else {
        dec_seq(n / 10).push(digit_char(n % 10))
    }
}

/// The decimal rendering of a signed integer: a minus sign and the digits of
/// the magnitude for negative values, the bare digits otherwise.
pub open spec fn int_seq(v: int) -> Seq<char> {
    if v < 0 {
        seq!['-'] + dec_seq((-v) as nat)
    } else {
        dec_seq(v as nat)
    }
}

fn digit_str(d: u64) -> (r: &'static str)
    requires
        d < 10,
    ensures
        r@ == seq![digit_char(d as nat)],
{
    proof {
        reveal_strlit("0");
        reveal_strlit("1");
        reveal_strlit("2");
        reveal_strlit("3");
        reveal_strlit("4");
        reveal_strlit("5");
        reveal_strlit("6");
        reveal_strlit("7");
        reveal_strlit("8");
        reveal_strlit("9");
    }
    let r: &'static str = if d == 0 {
        "0"
    } else if d == 1 {
        "1"
    } else if d == 2 {
        "2"
    } else if d == 3 {
        "3"
    } else if d == 4 {
        "4"
    } else if d == 5 {
        "5"
    } else if d == 6 {
        "6"
    } else if d == 7 {
        "7"
    } else if d == 8 {
        "8"
    } else {
        "9"
    };
    proof {
        assert(r@ =~= seq![digit_char(d as nat)]);
    }
    r
}

/// Renders `n` in decimal.
pub fn u64_text(n: u64) -> (r: String)
    ensures
        r@ == dec_seq(n as nat),
    decreases n,
{
    if n < 10 {
        digit_str(n).to_owned()
    } else {
        let mut r = u64_text(n / 10);
        r.append(digit_str(n % 10));
        proof {
            assert(r@ =~= dec_seq(n as nat));
        }
        r
    }
}

/// Renders `v` in decimal, with a leading minus sign when it is negative.
pub fn i64_text(v: i64) -> (r: String)
    ensures
        r@ == int_seq(v as int),
{
    if v >= 0 {
        u64_text(v as u64)
    } else {
        let m: u64 = (-(v as i128)) as u64;
        proof {
            assert(m as nat == (-(v as int)) as nat);
        }
        let mut r = "-".to_owned();
        let digits = u64_text(m);
        r.append(digits.as_str());
        proof {
            reveal_strlit("-");
            assert(r@ =~= int_seq(v as int));
        }
        r
    }
}

} // verus!
