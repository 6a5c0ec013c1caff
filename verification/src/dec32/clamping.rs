//! Sign and clamping of fixed-point numbers.
use vstd::prelude::*;
use core::ops::Neg;

use super::dec32::{dec_clamp, Dec32, ONE_RAW};

verus! {

/// -1, 0 or 1 by the sign of `a`.
pub open spec fn sign_spec(a: Dec32) -> Dec32 {
    if a.0 > 0 { Dec32(ONE_RAW) } else if a.0 < 0 { Dec32(-65536i32) } else { Dec32(0) }
}

/// Sign function: returns -1, 0, or 1.
pub fn sign(a: Dec32) -> (r: Dec32)
    ensures
        r == sign_spec(a),
{
    if a.0 > 0 {
        Dec32::one()
    } else if a.0 < 0 {
        Dec32::one().neg()
    } else {
        Dec32::zero()
    }
}

/// Saturate: clamp to `0..=1`.
pub fn saturate(a: Dec32) -> (r: Dec32)
    ensures
        r == dec_clamp(a, Dec32(0), Dec32(ONE_RAW)),
        0 <= r.0 <= ONE_RAW,
{
    a.clamp(Dec32::zero(), Dec32::one())
}

/// Saturating is idempotent and leaves values in `0..=1` unchanged.
pub proof fn lemma_saturate_idempotent(a: Dec32)
    ensures
        dec_clamp(dec_clamp(a, Dec32(0), Dec32(ONE_RAW)), Dec32(0), Dec32(ONE_RAW))
            == dec_clamp(a, Dec32(0), Dec32(ONE_RAW)),
        0 <= a.0 <= ONE_RAW ==> dec_clamp(a, Dec32(0), Dec32(ONE_RAW)) == a,
{
}

} // verus!
