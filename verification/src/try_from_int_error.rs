//! The conversion failure value.
//!
//! A generated conversion routine returns this value when the probed
//! integer matches no variant; it carries the failing value for
//! diagnostics, and its human-readable rendering is
//! `Could not convert {value}`.

use vstd::prelude::*;

verus! {

/// The failure value of a generated conversion: the raw value that matched
/// no variant.
#[derive(Debug)]
pub struct TryFromIntError<T>(pub T);

/// The decimal digit character for `d`.
pub open spec fn digit_char(d: int) -> char {
    if d == 0 {
        '0'
    } else if d == 1 {
        '1'
    } else if d == 2 {
        '2'
    } else if d == 3 {
        '3'
    } else if d == 4 {
        '4'
    } else if d == 5 {
        '5'
    } else if d == 6 {
        '6'
    } else if d == 7 {
        '7'
    } else if d == 8 {
        '8'
    } else {
        '9'
    }
}

/// The decimal rendering of `n`, most significant digit first.
pub open spec fn dec_digits(n: nat) -> Seq<char>
    decreases n,
{
    if n < 10 {
        seq![digit_char(n as int)]
    } else {
        dec_digits(n / 10) + seq![digit_char((n % 10) as int)]
    }
}

/// The human-readable rendering of the failure carrying `n`.
pub open spec fn could_not_convert(n: nat) -> Seq<char> {
    "Could not convert "@ + dec_digits(n)
}

/// The one-character string for the decimal digit `d`.
fn digit_str(d: u128) -> (r: &'static str)
    requires
        d < 10,
    ensures
        r@ == seq![digit_char(d as int)],
{
    let r: &'static str = if d == 0 {
        "0"
    } else if d == 1 {
        "1"
    } else if d == 2 {
        "2"
    } else if d == 3 {
        "3"
    } else if d == 4 {
        "4"
    } else if d == 5 {
        "5"
    } else if d == 6 {
        "6"
    } else if d == 7 {
        "7"
    } else if d == 8 {
        "8"
    } else {
        "9"
    };
    proof {
        reveal_strlit("0");
        reveal_strlit("1");
        reveal_strlit("2");
        reveal_strlit("3");
        reveal_strlit("4");
        reveal_strlit("5");
        reveal_strlit("6");
        reveal_strlit("7");
        reveal_strlit("8");
        reveal_strlit("9");
        assert(r@ =~= seq![digit_char(d as int)]);
    }
    r
}

/// Appends the decimal rendering of `n` to `out`.
fn push_dec(n: u128, out: &mut String)
    ensures
        final(out)@ == old(out)@ + dec_digits(n as nat),
    decreases n,
{
    if n >= 10 {
        proof {
            vstd::arithmetic::div_mod::lemma_div_is_strictly_smaller(n as int, 10);
        }
        push_dec(n / 10, out);
    }
    let d = digit_str(n % 10);
    out.append(d);
    proof {
        if n >= 10 {
            assert(out@ =~= old(out)@ + dec_digits(n as nat));
        } else {
            assert(n % 10 == n) by {
                vstd::arithmetic::div_mod::lemma_small_mod(n as nat, 10);
            }
            assert(out@ =~= old(out)@ + dec_digits(n as nat));
        }
    }
}

impl TryFromIntError<u128> {
    /// The human-readable rendering: `Could not convert {value}`.
    pub fn message(&self) -> (r: String)
        ensures
            r@ == could_not_convert(self.0 as nat),
    {
        let mut s: String = "Could not convert ".to_owned();
        push_dec(self.0, &mut s);
        s
    }
}

} // verus!
