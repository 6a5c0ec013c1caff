//! 16.16 fixed-point numbers and the math built on them.
#[allow(clippy::module_inception)]
pub mod dec32;
pub mod rounding;
pub mod clamping;
pub mod interpolation;

pub use clamping::{saturate, sign};
pub use dec32::Dec32;
pub use interpolation::{lerp, smoothstep, step};
pub use rounding::{ceil, floor, frac};
pub mod trig;
pub use trig::{cos, sin, tan};
pub mod advanced;
pub use advanced::{atan, atan2, fract, modulo, pow, sqrt};
pub mod arctangent;
pub mod vec2;
pub use vec2::Vec2;
pub mod vec3;
pub use vec3::Vec3;
pub mod conversions;
pub use conversions::ToDec32;
pub use crate::fixed::vec4::Vec4;
pub mod mat3;
pub use mat3::Mat3;
pub mod mat3_laws;
pub mod noise;
pub use noise::perlin3;

use vstd::prelude::*;

use self::dec32::{dec_div, dec_from_int, dec_mul};

verus! {

/// Fixed-point product of two raw values (`(a * b) >> 16`, truncated to 32 bits).
pub fn fixed_mul(a: i32, b: i32) -> (r: i32)
    ensures
        r == dec_mul(Dec32(a), Dec32(b)).0,
{
    (Dec32(a) * Dec32(b)).0
}

/// Fixed-point quotient of two raw values; 0 where `b` is 0.
pub fn fixed_div(a: i32, b: i32) -> (r: i32)
    ensures
        b != 0 ==> r == dec_div(Dec32(a), Dec32(b)).0,
        b == 0 ==> r == 0,
{
    if b != 0 {
        (Dec32(a) / Dec32(b)).0
    } else {
        0
    }
}

/// Raw fixed-point value of an integer (`i << 16`).
pub fn fixed_from_int(i: i32) -> (r: i32)
    ensures
        r == dec_from_int(i as int).0,
{
    Dec32::from_i32(i).0
}

} // verus!
