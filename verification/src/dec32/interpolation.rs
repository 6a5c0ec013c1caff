//! Interpolation of fixed-point numbers.
use vstd::prelude::*;

use super::dec32::{dec_add, dec_clamp, dec_div, dec_mul, dec_sub, wrap32, Dec32, ONE_RAW};

verus! {

/// `a + (b - a) * t` in fixed-point arithmetic.
pub open spec fn lerp_spec(a: Dec32, b: Dec32, t: Dec32) -> Dec32 {
    dec_add(a, dec_mul(dec_sub(b, a), t))
}

/// `0` if `x < edge`, else `1`.
pub open spec fn step_spec(edge: Dec32, x: Dec32) -> Dec32 {
    if x.0 < edge.0 { Dec32(0) } else { Dec32(ONE_RAW) }
}

/// The Hermite curve `3t^2 - 2t^3` at `t`.
pub open spec fn hermite_spec(t: Dec32) -> Dec32 {
    let t2 = dec_mul(t, t);
    let t3 = dec_mul(t2, t);
    dec_sub(dec_mul(t2, Dec32(196608i32)), dec_mul(t3, Dec32(131072i32)))
}

/// Smooth step from `edge0` to `edge1`.
pub open spec fn smoothstep_spec(edge0: Dec32, edge1: Dec32, x: Dec32) -> Dec32 {
    hermite_spec(
        dec_clamp(dec_div(dec_sub(x, edge0), dec_sub(edge1, edge0)), Dec32(0), Dec32(ONE_RAW)),
    )
}

/// Linear interpolation: `lerp(a, b, t) = a + (b - a) * t`.
pub fn lerp(a: Dec32, b: Dec32, t: Dec32) -> (r: Dec32)
    ensures
        r == lerp_spec(a, b, t),
{
    a + (b - a) * t
}

/// Step function: 0.0 if `x < edge`, else 1.0.
pub fn step(edge: Dec32, x: Dec32) -> (r: Dec32)
    ensures
        r == step_spec(edge, x),
{
    if x.0 < edge.0 {
        Dec32::zero()
    } else {
        Dec32::one()
    }
}

/// Smooth Hermite interpolation between 0 and 1 as `x` goes from `edge0` to `edge1`.
pub fn smoothstep(edge0: Dec32, edge1: Dec32, x: Dec32) -> (r: Dec32)
    requires
        dec_sub(edge1, edge0).0 != 0,
    ensures
        r == smoothstep_spec(edge0, edge1, x),
{
    let t = ((x - edge0) / (edge1 - edge0)).clamp(Dec32::zero(), Dec32::one());
    let t2 = t * t;
    let t3 = t2 * t;
    t2 * Dec32::from_i32(3) - t3 * Dec32::from_i32(2)
}

/// Interpolating with `t = 0` gives the start and with `t = 1` gives the end.
pub proof fn lemma_lerp_endpoints(a: Dec32, b: Dec32)
    ensures
        lerp_spec(a, b, Dec32(0)) == a,
        lerp_spec(a, b, Dec32(ONE_RAW)) == b,
{
    let d = dec_sub(b, a);
    assert(dec_mul(d, Dec32(0)).0 == 0);
    assert((d.0 * ONE_RAW) / 65536 == d.0);
    assert(dec_mul(d, Dec32(ONE_RAW)) == d);
    lemma_wrap_add_sub(a.0, b.0);
}

/// Adding back a wrapped difference restores the original value.
pub proof fn lemma_wrap_add_sub(a: i32, b: i32)
    ensures
        wrap32(a + wrap32(b - a)) == b,
{
    assert(((a + ((b - a) as i32)) as i32) == b) by (bit_vector);
}

/// The step function only ever returns 0 or 1.
pub proof fn lemma_step_is_zero_or_one(edge: Dec32, x: Dec32)
    ensures
        step_spec(edge, x).0 == 0 || step_spec(edge, x).0 == ONE_RAW,
{
}

/// The Hermite curve sends 0 to 0 and 1 to 1, so `smoothstep` is 0 at and below
/// `edge0` and 1 at and above `edge1` (for `edge0 < edge1`).
pub proof fn lemma_hermite_ends()
    ensures
        hermite_spec(Dec32(0)) == Dec32(0),
        hermite_spec(Dec32(ONE_RAW)) == Dec32(ONE_RAW),
{
}

} // verus!
