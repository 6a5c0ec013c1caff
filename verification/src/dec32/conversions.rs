//! Conversion of integers to fixed point.
use vstd::prelude::*;

use crate::dec32::dec32::{dec_from_int, wrap32, Dec32};

verus! {

/// Types that convert to a fixed-point number.
pub trait ToDec32 {
    /// The value as a fixed-point number.
    fn to_dec32(self) -> Dec32;
}

impl ToDec32 for i32 {
    fn to_dec32(self) -> (r: Dec32)
        ensures
            r == dec_from_int(self as int),
    {
        Dec32::from_i32(self)
    }
}

impl ToDec32 for u32 {
    fn to_dec32(self) -> (r: Dec32)
        ensures
            r == dec_from_int(wrap32(self as int) as int),
    {
        Dec32::from_i32(self as i32)
    }
}

impl ToDec32 for usize {
    fn to_dec32(self) -> (r: Dec32)
        ensures
            r == dec_from_int(wrap32(self as int) as int),
    {
        Dec32::from_i32(self as i32)
    }
}

} // verus!
