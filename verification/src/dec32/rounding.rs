//! Rounding of fixed-point numbers.
use vstd::prelude::*;

use super::dec32::{dec_add, dec_floor_int, dec_frac, shr16, Dec32, ONE_RAW};

verus! {

/// The integer part of `a`, rounded toward negative infinity, as a fixed-point number.
pub open spec fn floor_spec(a: Dec32) -> Dec32 {
    Dec32((dec_floor_int(a) * 65536) as i32)
}

/// `ceil` as computed: values with a fractional part go to the next integer.
pub open spec fn ceil_spec(f: Dec32) -> Dec32 {
    if dec_frac(f).0 > 0 { dec_add(floor_spec(f), Dec32(ONE_RAW)) } else { f }
}

/// Fractional part of a fixed-point number (always in `0..1`).
pub fn frac(f: Dec32) -> (r: Dec32)
    ensures
        r == dec_frac(f),
        0 <= r.0 < ONE_RAW,
{
    f.frac()
}

/// Round down to an integer: the low 16 bits are cleared.
pub fn floor(f: Dec32) -> (r: Dec32)
    ensures
        r == floor_spec(f),
        r.0 == f.0 - f.0 % 65536,
        r.0 % 65536 == 0,
        r.0 <= f.0 < r.0 + ONE_RAW,
{
    let q: i64 = shr16(f.0 as i64);
    Dec32((q * 65536) as i32)
}

/// Round up to an integer: values with a fractional part go to the next integer
/// (wrapping at the top of the range), integers stay as they are.
pub fn ceil(f: Dec32) -> (r: Dec32)
    ensures
        r == ceil_spec(f),
{
    let frac_part = frac(f);
    if frac_part.0 > 0 {
        floor(f) + Dec32::one()
    } else {
        f
    }
}

/// The integer part and the fractional part add up to the number again.
pub proof fn lemma_floor_plus_frac(f: Dec32)
    ensures
        dec_add(floor_spec(f), dec_frac(f)) == f,
{
}

/// Rounding down twice is rounding down once.
pub proof fn lemma_floor_idempotent(f: Dec32)
    ensures
        floor_spec(floor_spec(f)) == floor_spec(f),
{
    let q: int = f.0 / 65536;
    assert((q * 65536) / 65536 == q) by (nonlinear_arith);
}

/// An integer value has no fractional part, so rounding up leaves it unchanged.
pub proof fn lemma_ceil_of_integer(f: Dec32)
    requires
        f.0 % 65536 == 0,
    ensures
        dec_frac(f).0 == 0,
{
}

} // verus!
