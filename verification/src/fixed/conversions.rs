//! Conversion of integers to fixed point (older API).
use vstd::prelude::*;

use super::Fixed;
use crate::dec32::dec32::{dec_from_int, wrap32, Dec32};

verus! {

/// Types that convert to a fixed-point number.
pub trait ToFixed {
    /// The value as a fixed-point number.
    fn to_fixed(self) -> Fixed;
}

impl ToFixed for i32 {
    fn to_fixed(self) -> (r: Fixed)
        ensures
            r == dec_from_int(self as int),
    {
        Dec32::from_i32(self)
    }
}

impl ToFixed for u32 {
    fn to_fixed(self) -> (r: Fixed)
        ensures
            r == dec_from_int(wrap32(self as int) as int),
    {
        Dec32::from_i32(self as i32)
    }
}

impl ToFixed for usize {
    fn to_fixed(self) -> (r: Fixed)
        ensures
            r == dec_from_int(wrap32(self as int) as int),
    {
        Dec32::from_i32(self as i32)
    }
}

} // verus!
