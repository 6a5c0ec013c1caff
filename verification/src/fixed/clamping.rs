//! Sign and clamping of fixed-point numbers (older API).
use vstd::prelude::*;
use core::ops::Neg;

use super::Fixed;
use crate::dec32::clamping::sign_spec;
use crate::dec32::dec32::{dec_clamp, Dec32, ONE_RAW};

verus! {

/// Sign function: returns -1, 0, or 1.
pub fn sign(a: Fixed) -> (r: Fixed)
    ensures
        r == sign_spec(a),
{
    if a.0 > 0 {
        Dec32::one()
    } else if a.0 < 0 {
        Dec32::one().neg()
    } else {
        Dec32::zero()
    }
}

/// Saturate: clamp to `0..=1`.
pub fn saturate(a: Fixed) -> (r: Fixed)
    ensures
        r == dec_clamp(a, Dec32(0), Dec32(ONE_RAW)),
{
    a.clamp(Dec32::zero(), Dec32::one())
}

} // verus!
