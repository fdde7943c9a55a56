//! Rendering of channel identifiers as decimal strings.
//!
//! Channel registry entries are small integers, while ledger keys and
//! transport requests carry the channel as its decimal string.  The exact
//! character sequence is pinned down by [`dec_str`], and the one trusted
//! rendering function is proved against it.

use vstd::prelude::*;

verus! {

/// The decimal digit character for a value below ten.
pub open spec fn dec_digit(d: nat) -> char {
    if d == 0 {
        '0'
    } else if d == 1 {
        '1'
    } else if d == 2 {
        '2'
    } else if d == 3 {
        '3'
    } else if d == 4 {
        '4'
    } else if d == 5 {
        '5'
    } else if d == 6 {
        '6'
    } else if d == 7 {
        '7'
    } else if d == 8 {
        '8'
    } else {
        '9'
    }
}

/// The decimal representation of `n`, most significant digit first, with no
/// leading zeros (and `"0"` for zero itself).
pub open spec fn dec_str(n: nat) -> Seq<char>
    decreases n,
{
    if n < 10 {
        seq![dec_digit(n)]
    } else {
        dec_str(n / 10).push(dec_digit(n % 10))
    }
}

/// Relies on `u32`'s `ToString` implementation from std: the result is the
/// value's decimal representation, most significant digit first, without
/// leading zeros.
#[verifier::external_body]
pub fn u32_to_dec_string(n: u32) -> (r: String)
    ensures
        r@ == dec_str(n as nat),
{
    n.to_string()
}

} // verus!
