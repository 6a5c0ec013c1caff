//! The older name of the fixed-point API: `Fixed` is the same 16.16 number as `Dec32`.
pub mod clamping;
pub mod conversions;
pub mod vec4;

pub use clamping::{saturate, sign};
pub use conversions::ToFixed;
pub use vec4::Vec4;

use vstd::prelude::*;

use crate::dec32::dec32::{dec_div, dec_from_int, dec_mul, Dec32, ONE_RAW};

verus! {

/// The fixed-point type under its older name.
pub type Fixed = Dec32;

/// Raw representation of 1.0.
pub const FIXED_ONE: i32 = 65536;
/// Number of fractional bits.
pub const FIXED_SHIFT: i32 = 16;

/// Fixed-point product of two raw values (`(a * b) >> 16`, truncated to 32 bits).
pub fn fixed_mul(a: i32, b: i32) -> (r: i32)
    ensures
        r == dec_mul(Dec32(a), Dec32(b)).0,
{
    (Dec32(a) * Dec32(b)).0
}

/// Fixed-point quotient of two raw values; 0 where `b` is 0.
pub fn fixed_div(a: i32, b: i32) -> (r: i32)
    ensures
        b != 0 ==> r == dec_div(Dec32(a), Dec32(b)).0,
        b == 0 ==> r == 0,
{
    if b != 0 {
        (Dec32(a) / Dec32(b)).0
    } else {
        0
    }
}

/// Raw fixed-point value of an integer (`i << 16`).
pub fn fixed_from_int(i: i32) -> (r: i32)
    ensures
        r == dec_from_int(i as int).0,
{
    Dec32::from_i32(i).0
}

} // verus!
