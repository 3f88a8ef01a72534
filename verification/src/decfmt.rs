//! Decimal rendering of timestamps.
//!
//! The signature is computed over the timestamp's decimal string, and the
//! same digits are embedded in the request body, so the rendering itself is
//! part of the protocol and is specified exactly.

use vstd::prelude::*;
use vstd::string::StringExecFns;

use crate::hexfmt::{hex_digit, hex_digit_str};

verus! {

/// The decimal digits of `n`, most significant first, with no leading zeros
/// (a lone `0` for zero).
pub open spec fn dec_of(n: nat) -> Seq<char>
    decreases n,
{
    if n < 10 {
        seq![hex_digit(n as u8)]
    } else {
        dec_of(n / 10) + seq![hex_digit((n % 10) as u8)]
    }
}

/// The decimal rendering of a possibly negative integer, as
/// `i64::to_string` renders it: a `-` sign followed by the magnitude.
pub open spec fn dec_of_int(t: int) -> Seq<char> {
    if t >= 0 {
        dec_of(t as nat)
    } else {
        seq!['-'] + dec_of((-t) as nat)
    }
}

/// Render an unsigned number in decimal.
pub fn u64_to_dec(n: u64) -> (r: String)
    ensures
        r@ == dec_of(n as nat),
    decreases n,
{
    if n < 10 {
        String::from_str(hex_digit_str(n as u8))
    } else {
        let mut s = u64_to_dec(n / 10);
        s.append(hex_digit_str((n % 10) as u8));
        s
    }
}

/// Render a signed number in decimal, as `i64::to_string` does.
pub fn i64_to_dec(t: i64) -> (r: String)
    ensures
        r@ == dec_of_int(t as int),
{
    if t >= 0 {
        u64_to_dec(t as u64)
    } else {
        proof {
            reveal_strlit("-");
        }
        let mut s = String::from_str("-");
        let m: u64 = if t == i64::MIN {
            9223372036854775808u64
        } else {
            (-t) as u64
        };
        let digits = u64_to_dec(m);
        s.append(digits.as_str());
        s
    }
}

} // verus!
