//! Decimal rendering of measured quantities. Every quantity of the forecast
//! is carried as a whole number of tenths of its unit, and is displayed with
//! exactly one digit after the decimal point.

use vstd::prelude::*;

use crate::time::digit_char;
use crate::time::digit_str;

verus! {

/// The decimal digits of `n`, most significant first, with no leading zero
/// except for `n == 0` itself.
pub open spec fn dec_digits(n: nat) -> Seq<char>
    decreases n,
{
    if n < 10 {
        seq![digit_char(n as int)]
    } else {
        dec_digits(n / 10).push(digit_char((n % 10) as int))
    }
}

/// A tenths count written with one digit after the decimal point: the sign,
/// the whole units, a point, and the remaining tenth.
pub open spec fn tenths_text(t: int) -> Seq<char> {
    let m = if t < 0 {
        -t
    } else {
        t
    };
    (if t < 0 {
        seq!['-']
    } else {
        Seq::<char>::empty()
    }) + dec_digits((m / 10) as nat) + seq!['.', digit_char(m % 10)]
}

/// A whole number in decimal, with its sign.
pub open spec fn int_text(t: int) -> Seq<char> {
    let m = if t < 0 {
        -t
    } else {
        t
    };
    (if t < 0 {
        seq!['-']
    } else {
        Seq::<char>::empty()
    }) + dec_digits(m as nat)
}

/// Appends the decimal digits of `n` to `out`.
fn push_dec(out: &mut String, n: u64)
    ensures
        final(out)@ == old(out)@ + dec_digits(n as nat),
    decreases n,
{
    if n >= 10 {
        proof {
            assert(n / 10 < n) by (nonlinear_arith)
                requires
                    n >= 10,
            ;
        }
        push_dec(out, n / 10);
        out.append(digit_str((n % 10) as u8));
        proof {
            assert(out@ =~= old(out)@ + dec_digits(n as nat));
        }
    } else {
        out.append(digit_str(n as u8));
        proof {
            assert(out@ =~= old(out)@ + dec_digits(n as nat));
        }
    }
}

/// Writes a tenths count with one decimal place, as the display table shows
/// every measured quantity.
pub fn format_tenths(t: i32) -> (r: String)
    ensures
        r@ == tenths_text(t as int),
{
    let mut s = String::new();
    let m: u64 = if t < 0 {
        proof {
            reveal_strlit("-");
        }
        s.append("-");
        (-(t as i64)) as u64
    } else {
        t as u64
    };
    push_dec(&mut s, m / 10);
    proof {
        reveal_strlit(".");
    }
    s.append(".");
    s.append(digit_str((m % 10) as u8));
    proof {
        assert(s@ =~= tenths_text(t as int));
    }
    s
}

/// Writes a whole number in decimal, with its sign.
pub fn format_int(t: i32) -> (r: String)
    ensures
        r@ == int_text(t as int),
{
    let mut s = String::new();
    let m: u64 = if t < 0 {
        proof {
            reveal_strlit("-");
        }
        s.append("-");
        (-(t as i64)) as u64
    } else {
        t as u64
    };
    push_dec(&mut s, m);
    proof {
        assert(s@ =~= int_text(t as int));
    }
    s
}

} // verus!
