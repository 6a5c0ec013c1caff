//! Four-component vectors of fixed-point numbers (colors, homogeneous coordinates).
use vstd::prelude::*;
use core::ops::Neg;

use crate::dec32::advanced::{dec_sqrt, sqrt};
use crate::dec32::dec32::{
    dec_add, dec_clamp, dec_div, dec_from_int, dec_mul, dec_neg, dec_sub, Dec32, ONE_RAW,
};
use crate::dec32::vec2::Vec2;
use crate::dec32::vec3::Vec3;

verus! {

/// A 4D vector of fixed-point components.
#[derive(Clone, Copy, Debug, PartialEq, Eq, Structural)]
pub struct Vec4 {
    pub x: Dec32,
    pub y: Dec32,
    pub z: Dec32,
    pub w: Dec32,
}

/// Dot product of two 4D vectors.
pub open spec fn dot4_spec(a: Vec4, b: Vec4) -> Dec32 {
    dec_add(
        dec_add(dec_add(dec_mul(a.x, b.x), dec_mul(a.y, b.y)), dec_mul(a.z, b.z)),
        dec_mul(a.w, b.w),
    )
}

/// Component-wise difference.
pub open spec fn sub4_spec(a: Vec4, b: Vec4) -> Vec4 {
    Vec4 { x: dec_sub(a.x, b.x), y: dec_sub(a.y, b.y), z: dec_sub(a.z, b.z), w: dec_sub(a.w, b.w) }
}

/// Length: the fixed-point square root of the squared length.
pub open spec fn length4_spec(a: Vec4) -> Dec32 {
    dec_sqrt(dot4_spec(a, a))
}

/// `a` divided by its length, or the zero vector where the length is 0.
pub open spec fn normalize4_spec(a: Vec4) -> Vec4 {
    let len = length4_spec(a);
    if len.0 == 0 {
        Vec4 { x: Dec32(0), y: Dec32(0), z: Dec32(0), w: Dec32(0) }
    } else {
        Vec4 { x: dec_div(a.x, len), y: dec_div(a.y, len), z: dec_div(a.z, len), w: dec_div(a.w, len) }
    }
}

impl Vec4 {
    /// A vector from its four components.
    pub fn new(x: Dec32, y: Dec32, z: Dec32, w: Dec32) -> (r: Vec4)
        ensures
            r.x == x,
            r.y == y,
            r.z == z,
            r.w == w,
    {
        Vec4 { x, y, z, w }
    }

    /// A vector from four integers.
    pub fn from_i32(x: i32, y: i32, z: i32, w: i32) -> (r: Vec4)
        ensures
            r.x == dec_from_int(x as int),
            r.y == dec_from_int(y as int),
            r.z == dec_from_int(z as int),
            r.w == dec_from_int(w as int),
    {
        Vec4 {
            x: Dec32::from_i32(x),
            y: Dec32::from_i32(y),
            z: Dec32::from_i32(z),
            w: Dec32::from_i32(w),
        }
    }

    /// The zero vector.
    pub fn zero() -> (r: Vec4)
        ensures
            r.x.0 == 0 && r.y.0 == 0 && r.z.0 == 0 && r.w.0 == 0,
    {
        Vec4::new(Dec32(0), Dec32(0), Dec32(0), Dec32(0))
    }

    /// The vector (1, 1, 1, 1).
    pub fn one() -> (r: Vec4)
        ensures
            r.x.0 == ONE_RAW && r.y.0 == ONE_RAW && r.z.0 == ONE_RAW && r.w.0 == ONE_RAW,
    {
        Vec4::new(Dec32::one(), Dec32::one(), Dec32::one(), Dec32::one())
    }

    /// Dot product.
    pub fn dot(self, rhs: Vec4) -> (r: Dec32)
        ensures
            r == dot4_spec(self, rhs),
    {
        (self.x * rhs.x) + (self.y * rhs.y) + (self.z * rhs.z) + (self.w * rhs.w)
    }

    /// Squared length.
    pub fn length_squared(self) -> (r: Dec32)
        ensures
            r == dot4_spec(self, self),
    {
        self.dot(self)
    }

    /// Length.
    pub fn length(self) -> (r: Dec32)
        ensures
            r == length4_spec(self),
    {
        sqrt(self.length_squared())
    }

    /// Distance between two vectors.
    pub fn distance(self, other: Vec4) -> (r: Dec32)
        ensures
            r == length4_spec(sub4_spec(self, other)),
    {
        (self - other).length()
    }

    /// Unit vector in the same direction (the zero vector stays zero).
    pub fn normalize(self) -> (r: Vec4)
        ensures
            r == normalize4_spec(self),
    {
        let len = self.length();
        if len.0 == 0 {
            return Vec4::zero();
        }
        self / len
    }

    /// The x component.
    pub fn x(self) -> (r: Dec32)
        ensures
            r == self.x,
    {
        self.x
    }

    /// The y component.
    pub fn y(self) -> (r: Dec32)
        ensures
            r == self.y,
    {
        self.y
    }

    /// The z component.
    pub fn z(self) -> (r: Dec32)
        ensures
            r == self.z,
    {
        self.z
    }

    /// The w component.
    pub fn w(self) -> (r: Dec32)
        ensures
            r == self.w,
    {
        self.w
    }

    /// The red component.
    pub fn r(self) -> (r: Dec32)
        ensures
            r == self.x,
    {
        self.x
    }

    /// The green component.
    pub fn g(self) -> (r: Dec32)
        ensures
            r == self.y,
    {
        self.y
    }

    /// The blue component.
    pub fn b(self) -> (r: Dec32)
        ensures
            r == self.z,
    {
        self.z
    }

    /// The alpha component.
    pub fn a(self) -> (r: Dec32)
        ensures
            r == self.w,
    {
        self.w
    }

    /// The `xy` swizzle.
    pub fn xy(self) -> (r: Vec2)
        ensures
            r.x == self.x, r.y == self.y,
    {
        Vec2::new(self.x, self.y)
    }

    /// The `xz` swizzle.
    pub fn xz(self) -> (r: Vec2)
        ensures
            r.x == self.x, r.y == self.z,
    {
        Vec2::new(self.x, self.z)
    }

    /// The `xw` swizzle.
    pub fn xw(self) -> (r: Vec2)
        ensures
            r.x == self.x, r.y == self.w,
    {
        Vec2::new(self.x, self.w)
    }

    /// The `yz` swizzle.
    pub fn yz(self) -> (r: Vec2)
        ensures
            r.x == self.y, r.y == self.z,
    {
        Vec2::new(self.y, self.z)
    }

    /// The `yw` swizzle.
    pub fn yw(self) -> (r: Vec2)
        ensures
            r.x == self.y, r.y == self.w,
    {
        Vec2::new(self.y, self.w)
    }

    /// The `zw` swizzle.
    pub fn zw(self) -> (r: Vec2)
        ensures
            r.x == self.z, r.y == self.w,
    {
        Vec2::new(self.z, self.w)
    }

    /// The `xyz` swizzle.
    pub fn xyz(self) -> (r: Vec3)
        ensures
            r.x == self.x, r.y == self.y, r.z == self.z,
    {
        Vec3::new(self.x, self.y, self.z)
    }

    /// The `xyw` swizzle.
    pub fn xyw(self) -> (r: Vec3)
        ensures
            r.x == self.x, r.y == self.y, r.z == self.w,
    {
        Vec3::new(self.x, self.y, self.w)
    }

    /// The `xzw` swizzle.
    pub fn xzw(self) -> (r: Vec3)
        ensures
            r.x == self.x, r.y == self.z, r.z == self.w,
    {
        Vec3::new(self.x, self.z, self.w)
    }

    /// The `yzw` swizzle.
    pub fn yzw(self) -> (r: Vec3)
        ensures
            r.x == self.y, r.y == self.z, r.z == self.w,
    {
        Vec3::new(self.y, self.z, self.w)
    }

    /// The `xyzw` swizzle.
    pub fn xyzw(self) -> (r: Vec4)
        ensures
            r.x == self.x, r.y == self.y, r.z == self.z, r.w == self.w,
    {
        self
    }

    /// The `rg` swizzle.
    pub fn rg(self) -> (r: Vec2)
        ensures
            r.x == self.x, r.y == self.y,
    {
        self.xy()
    }

    /// The `rb` swizzle.
    pub fn rb(self) -> (r: Vec2)
        ensures
            r.x == self.x, r.y == self.z,
    {
        self.xz()
    }

    /// The `rgb` swizzle.
    pub fn rgb(self) -> (r: Vec3)
        ensures
            r.x == self.x, r.y == self.y, r.z == self.z,
    {
        self.xyz()
    }

    /// The `rgba` swizzle.
    pub fn rgba(self) -> (r: Vec4)
        ensures
            r.x == self.x, r.y == self.y, r.z == self.z, r.w == self.w,
    {
        self
    }

    /// Component-wise product.
    pub fn mul_comp(self, rhs: Vec4) -> (r: Vec4)
        ensures
            r.x == dec_mul(self.x, rhs.x),
            r.y == dec_mul(self.y, rhs.y),
            r.z == dec_mul(self.z, rhs.z),
            r.w == dec_mul(self.w, rhs.w),
    {
        Vec4::new(self.x * rhs.x, self.y * rhs.y, self.z * rhs.z, self.w * rhs.w)
    }

    /// Component-wise quotient.
    pub fn div_comp(self, rhs: Vec4) -> (r: Vec4)
        requires
            rhs.x.0 != 0,
            rhs.y.0 != 0,
            rhs.z.0 != 0,
            rhs.w.0 != 0,
        ensures
            r.x == dec_div(self.x, rhs.x),
            r.y == dec_div(self.y, rhs.y),
            r.z == dec_div(self.z, rhs.z),
            r.w == dec_div(self.w, rhs.w),
    {
        Vec4::new(self.x / rhs.x, self.y / rhs.y, self.z / rhs.z, self.w / rhs.w)
    }

    /// Every component limited to `min..=max`.
    pub fn clamp(self, min: Dec32, max: Dec32) -> (r: Vec4)
        ensures
            r.x == dec_clamp(self.x, min, max),
            r.y == dec_clamp(self.y, min, max),
            r.z == dec_clamp(self.z, min, max),
            r.w == dec_clamp(self.w, min, max),
    {
        Vec4::new(
            self.x.clamp(min, max),
            self.y.clamp(min, max),
            self.z.clamp(min, max),
            self.w.clamp(min, max),
        )
    }
}

impl core::ops::Add for Vec4 {
    type Output = Vec4;

    fn add(self, rhs: Vec4) -> (r: Vec4)
        ensures
            r == (Vec4 { x: dec_add(self.x, rhs.x), y: dec_add(self.y, rhs.y), z: dec_add(self.z, rhs.z), w: dec_add(self.w, rhs.w) }),
    {
        Vec4::new(self.x + rhs.x, self.y + rhs.y, self.z + rhs.z, self.w + rhs.w)
    }
}

impl vstd::std_specs::ops::AddSpecImpl for Vec4 {
    open spec fn obeys_add_spec() -> bool {
        true
    }

    open spec fn add_req(self, rhs: Vec4) -> bool {
        true
    }

    open spec fn add_spec(self, rhs: Vec4) -> Vec4 {
        Vec4 { x: dec_add(self.x, rhs.x), y: dec_add(self.y, rhs.y), z: dec_add(self.z, rhs.z), w: dec_add(self.w, rhs.w) }
    }
}

impl core::ops::Sub for Vec4 {
    type Output = Vec4;

    fn sub(self, rhs: Vec4) -> (r: Vec4)
        ensures
            r == (Vec4 { x: dec_sub(self.x, rhs.x), y: dec_sub(self.y, rhs.y), z: dec_sub(self.z, rhs.z), w: dec_sub(self.w, rhs.w) }),
    {
        Vec4::new(self.x - rhs.x, self.y - rhs.y, self.z - rhs.z, self.w - rhs.w)
    }
}

impl vstd::std_specs::ops::SubSpecImpl for Vec4 {
    open spec fn obeys_sub_spec() -> bool {
        true
    }

    open spec fn sub_req(self, rhs: Vec4) -> bool {
        true
    }

    open spec fn sub_spec(self, rhs: Vec4) -> Vec4 {
        Vec4 { x: dec_sub(self.x, rhs.x), y: dec_sub(self.y, rhs.y), z: dec_sub(self.z, rhs.z), w: dec_sub(self.w, rhs.w) }
    }
}

impl core::ops::Mul<Dec32> for Vec4 {
    type Output = Vec4;

    fn mul(self, rhs: Dec32) -> (r: Vec4)
        ensures
            r == (Vec4 { x: dec_mul(self.x, rhs), y: dec_mul(self.y, rhs), z: dec_mul(self.z, rhs), w: dec_mul(self.w, rhs) }),
    {
        Vec4::new(self.x * rhs, self.y * rhs, self.z * rhs, self.w * rhs)
    }
}

impl vstd::std_specs::ops::MulSpecImpl<Dec32> for Vec4 {
    open spec fn obeys_mul_spec() -> bool {
        true
    }

    open spec fn mul_req(self, rhs: Dec32) -> bool {
        true
    }

    open spec fn mul_spec(self, rhs: Dec32) -> Vec4 {
        Vec4 { x: dec_mul(self.x, rhs), y: dec_mul(self.y, rhs), z: dec_mul(self.z, rhs), w: dec_mul(self.w, rhs) }
    }
}

impl core::ops::Div<Dec32> for Vec4 {
    type Output = Vec4;

    fn div(self, rhs: Dec32) -> (r: Vec4)
        ensures
            r == (Vec4 { x: dec_div(self.x, rhs), y: dec_div(self.y, rhs), z: dec_div(self.z, rhs), w: dec_div(self.w, rhs) }),
    {
        Vec4::new(self.x / rhs, self.y / rhs, self.z / rhs, self.w / rhs)
    }
}

impl vstd::std_specs::ops::DivSpecImpl<Dec32> for Vec4 {
    open spec fn obeys_div_spec() -> bool {
        true
    }

    open spec fn div_req(self, rhs: Dec32) -> bool {
        rhs.0 != 0
    }

    open spec fn div_spec(self, rhs: Dec32) -> Vec4 {
        Vec4 { x: dec_div(self.x, rhs), y: dec_div(self.y, rhs), z: dec_div(self.z, rhs), w: dec_div(self.w, rhs) }
    }
}

impl core::ops::Neg for Vec4 {
    type Output = Vec4;

    fn neg(self) -> (r: Vec4)
        ensures
            r == (Vec4 { x: dec_neg(self.x), y: dec_neg(self.y), z: dec_neg(self.z), w: dec_neg(self.w) }),
    {
        Vec4::new(self.x.neg(), self.y.neg(), self.z.neg(), self.w.neg())
    }
}

impl vstd::std_specs::ops::NegSpecImpl for Vec4 {
    open spec fn obeys_neg_spec() -> bool {
        true
    }

    open spec fn neg_req(self) -> bool {
        true
    }

    open spec fn neg_spec(self) -> Vec4 {
        Vec4 { x: dec_neg(self.x), y: dec_neg(self.y), z: dec_neg(self.z), w: dec_neg(self.w) }
    }
}

} // verus!
