//! Pure text formatting: decimal numbers, zero-padded fields, dates,
//! twelve-hour clock times and UTC offsets, each pinned to an exact
//! character-sequence specification.

use vstd::prelude::*;
use vstd::string::StringExecFns;

verus! {

/// The decimal digit character for a value below ten.
pub open spec fn digit_char(d: nat) -> char {
    if d == 0 {
        '0'
    } else if d == 1 {
        '1'
    } else if d == 2 {
        '2'
    } else if d == 3 {
        '3'
    } else if d == 4 {
        '4'
    } else if d == 5 {
        '5'
    } else if d == 6 {
        '6'
    } else if d == 7 {
        '7'
    } else if d == 8 {
        '8'
    } else {
        '9'
    }
}

/// The usual decimal rendering of `n`, most significant digit first,
/// without leading zeros (a lone zero for zero itself).
pub open spec fn dec_seq(n: nat) -> Seq<char>
    decreases n,
{
    if n < 10 {
        seq![digit_char(n)]
    } else {
        dec_seq(n / 10).push(digit_char(n % 10))
    }
}

/// `n` rendered to at least two digits, zero-padded.
pub open spec fn pad2_seq(n: nat) -> Seq<char> {
    if n < 10 {
        seq!['0'].push(digit_char(n))
    } else {
        dec_seq(n)
    }
}

/// `n` rendered to at least four digits, zero-padded.
pub open spec fn pad4_seq(n: nat) -> Seq<char> {
    if n < 10 {
        seq!['0', '0', '0'].push(digit_char(n))
    } else if n < 100 {
        seq!['0', '0'] + dec_seq(n)
    } else if n < 1000 {
        seq!['0'] + dec_seq(n)
    } else {
        dec_seq(n)
    }
}

fn digit_str(d: u64) -> (r: &'static str)
    requires
        d < 10,
    ensures
        r@ =~= seq![digit_char(d as nat)],
{
    proof {
        reveal_strlit("0");
        reveal_strlit("1");
        reveal_strlit("2");
        reveal_strlit("3");
        reveal_strlit("4");
        reveal_strlit("5");
        reveal_strlit("6");
        reveal_strlit("7");
        reveal_strlit("8");
        reveal_strlit("9");
    }
    if d == 0 {
        "0"
    } else if d == 1 {
        "1"
    } else if d == 2 {
        "2"
    } else if d == 3 {
        "3"
    } else if d == 4 {
        "4"
    } else if d == 5 {
        "5"
    } else if d == 6 {
        "6"
    } else if d == 7 {
        "7"
    } else if d == 8 {
        "8"
    } else {
        "9"
    }
}

/// Renders `n` in decimal, most significant digit first.
pub fn fmt_u64(n: u64) -> (r: String)
    ensures
        r@ == dec_seq(n as nat),
    decreases n,
{
    if n < 10 {
        let r = String::from_str(digit_str(n));
        proof {
            assert(r@ =~= dec_seq(n as nat));
        }
        r
    } else {
        let mut r = fmt_u64(n / 10);
        r.append(digit_str(n % 10));
        proof {
            assert(r@ =~= dec_seq(n as nat));
        }
        r
    }
}

/// Renders `n` zero-padded to at least two digits.
pub fn fmt_pad2(n: u64) -> (r: String)
    ensures
        r@ == pad2_seq(n as nat),
{
    if n < 10 {
        let mut r = String::from_str("0");
        r.append(digit_str(n));
        proof {
            reveal_strlit("0");
            assert(r@ =~= pad2_seq(n as nat));
        }
        r
    } else {
        fmt_u64(n)
    }
}

/// Renders `n` zero-padded to at least four digits.
pub fn fmt_pad4(n: u64) -> (r: String)
    ensures
        r@ == pad4_seq(n as nat),
{
    proof {
        reveal_strlit("000");
        reveal_strlit("00");
        reveal_strlit("0");
    }
    if n < 10 {
        let mut r = String::from_str("000");
        r.append(digit_str(n));
        proof {
            assert(r@ =~= pad4_seq(n as nat));
        }
        r
    } else if n < 100 {
        let mut r = String::from_str("00");
        let digits = fmt_u64(n);
        r.append(digits.as_str());
        proof {
            assert(r@ =~= pad4_seq(n as nat));
        }
        r
    } else if n < 1000 {
        let mut r = String::from_str("0");
        let digits = fmt_u64(n);
        r.append(digits.as_str());
        proof {
            assert(r@ =~= pad4_seq(n as nat));
        }
        r
    } else {
        fmt_u64(n)
    }
}

/// The hour shown on a twelve-hour clock for the hour `h` of a
/// twenty-four-hour day.
pub open spec fn hour12(h: nat) -> nat {
    if h % 12 == 0 {
        12
    } else {
        h % 12
    }
}

/// A clock time such as `3:05 PM`: twelve-hour hour without a leading
/// zero, two-digit minutes, and an AM/PM marker.
pub open spec fn time12_seq(h: nat, m: nat) -> Seq<char> {
    dec_seq(hour12(h)) + ":"@ + pad2_seq(m) + (if h < 12 {
        " AM"@
    } else {
        " PM"@
    })
}

/// Renders the local time `h:mm AM/PM` on a twelve-hour clock.
pub fn fmt_time12(h: u64, m: u64) -> (r: String)
    requires
        h < 24,
        m < 60,
    ensures
        r@ == time12_seq(h as nat, m as nat),
{
    let hr: u64 = if h % 12 == 0 {
        12
    } else {
        h % 12
    };
    let mut r = fmt_u64(hr);
    r.append(":");
    let minutes = fmt_pad2(m);
    r.append(minutes.as_str());
    if h < 12 {
        r.append(" AM");
    } else {
        r.append(" PM");
    }
    r
}

} // verus!
