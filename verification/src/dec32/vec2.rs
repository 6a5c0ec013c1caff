//! Two-component vectors of fixed-point numbers.
use vstd::prelude::*;
use core::ops::Neg;

use super::advanced::{dec_sqrt, sqrt};
use super::dec32::{
    dec_add, dec_div, dec_floor_int, dec_from_int, dec_mul, dec_neg, dec_sub, wrap32, Dec32,
};

verus! {

/// A 2D vector of fixed-point coordinates.
#[derive(Clone, Copy, Debug, PartialEq, Eq, Structural)]
pub struct Vec2 {
    pub x: Dec32,
    pub y: Dec32,
}

/// Dot product `a.x * b.x + a.y * b.y`.
pub open spec fn dot2_spec(a: Vec2, b: Vec2) -> Dec32 {
    dec_add(dec_mul(a.x, b.x), dec_mul(a.y, b.y))
}

/// Component-wise difference.
pub open spec fn sub2_spec(a: Vec2, b: Vec2) -> Vec2 {
    Vec2 { x: dec_sub(a.x, b.x), y: dec_sub(a.y, b.y) }
}

/// Length: the fixed-point square root of the squared length.
pub open spec fn length2_spec(a: Vec2) -> Dec32 {
    dec_sqrt(dot2_spec(a, a))
}

/// `a` divided by its length, or the zero vector where the length is 0.
pub open spec fn normalize2_spec(a: Vec2) -> Vec2 {
    let len = length2_spec(a);
    if len.0 == 0 {
        Vec2 { x: Dec32(0), y: Dec32(0) }
    } else {
        Vec2 { x: dec_div(a.x, len), y: dec_div(a.y, len) }
    }
}

impl Vec2 {
    /// A vector from its two components.
    pub fn new(x: Dec32, y: Dec32) -> (r: Vec2)
        ensures
            r.x == x,
            r.y == y,
    {
        Vec2 { x, y }
    }

    /// A vector from two integers.
    pub fn from_i32(x: i32, y: i32) -> (r: Vec2)
        ensures
            r.x == dec_from_int(x as int),
            r.y == dec_from_int(y as int),
    {
        Vec2 { x: Dec32::from_i32(x), y: Dec32::from_i32(y) }
    }

    /// The center of a pixel: `(x + 0.5, y + 0.5)`.
    pub fn from_pixel(x: usize, y: usize) -> (r: Vec2)
        ensures
            r.x.0 == wrap32(wrap32((x as i32) * 65536) + 32768),
            r.y.0 == wrap32(wrap32((y as i32) * 65536) + 32768),
    {
        let xi = x as i32;
        let yi = y as i32;
        let bx: i32 = (xi as i64 * 65536) as i32;
        let by: i32 = (yi as i64 * 65536) as i32;
        Vec2 { x: Dec32((bx as i64 + 32768) as i32), y: Dec32((by as i64 + 32768) as i32) }
    }

    /// Integer pixel coordinates (integer parts, rounded down, as `usize`).
    pub fn to_int_coords(self) -> (r: (usize, usize))
        ensures
            r.0 == dec_floor_int(self.x) as usize,
            r.1 == dec_floor_int(self.y) as usize,
    {
        (self.x.to_i32() as usize, self.y.to_i32() as usize)
    }

    /// Dot product.
    pub fn dot(self, rhs: Vec2) -> (r: Dec32)
        ensures
            r == dot2_spec(self, rhs),
    {
        (self.x * rhs.x) + (self.y * rhs.y)
    }

    /// Cross product (the z component of the 3D cross product).
    pub fn cross(self, rhs: Vec2) -> (r: Dec32)
        ensures
            r == dec_sub(dec_mul(self.x, rhs.y), dec_mul(self.y, rhs.x)),
    {
        (self.x * rhs.y) - (self.y * rhs.x)
    }

    /// Squared length.
    pub fn length_squared(self) -> (r: Dec32)
        ensures
            r == dot2_spec(self, self),
    {
        self.dot(self)
    }

    /// Length.
    pub fn length(self) -> (r: Dec32)
        ensures
            r == length2_spec(self),
    {
        sqrt(self.length_squared())
    }

    /// Distance to another vector.
    pub fn distance(self, other: Vec2) -> (r: Dec32)
        ensures
            r == length2_spec(sub2_spec(self, other)),
    {
        (self - other).length()
    }

    /// Unit vector in the same direction (the zero vector stays zero).
    pub fn normalize(self) -> (r: Vec2)
        ensures
            r == normalize2_spec(self),
    {
        let len = self.length();
        if len.0 == 0 {
            return Vec2::new(Dec32::zero(), Dec32::zero());
        }
        self / len
    }

    /// The x component.
    pub fn x(self) -> (r: Dec32)
        ensures
            r == self.x,
    {
        self.x
    }

    /// The y component.
    pub fn y(self) -> (r: Dec32)
        ensures
            r == self.y,
    {
        self.y
    }

    /// The x component (color name).
    pub fn r(self) -> (r: Dec32)
        ensures
            r == self.x,
    {
        self.x
    }

    /// The y component (color name).
    pub fn g(self) -> (r: Dec32)
        ensures
            r == self.y,
    {
        self.y
    }

    /// The x component (texture name).
    pub fn s(self) -> (r: Dec32)
        ensures
            r == self.x,
    {
        self.x
    }

    /// The y component (texture name).
    pub fn t(self) -> (r: Dec32)
        ensures
            r == self.y,
    {
        self.y
    }

    /// The `xx` swizzle.
    pub fn xx(self) -> (r: Vec2)
        ensures
            r.x == self.x, r.y == self.x,
    {
        Vec2::new(self.x, self.x)
    }

    /// The `xy` swizzle.
    pub fn xy(self) -> (r: Vec2)
        ensures
            r.x == self.x, r.y == self.y,
    {
        self
    }

    /// The `yx` swizzle.
    pub fn yx(self) -> (r: Vec2)
        ensures
            r.x == self.y, r.y == self.x,
    {
        Vec2::new(self.y, self.x)
    }

    /// The `yy` swizzle.
    pub fn yy(self) -> (r: Vec2)
        ensures
            r.x == self.y, r.y == self.y,
    {
        Vec2::new(self.y, self.y)
    }

    /// The `rr` swizzle.
    pub fn rr(self) -> (r: Vec2)
        ensures
            r.x == self.x, r.y == self.x,
    {
        self.xx()
    }

    /// The `rg` swizzle.
    pub fn rg(self) -> (r: Vec2)
        ensures
            r.x == self.x, r.y == self.y,
    {
        self
    }

    /// The `gr` swizzle.
    pub fn gr(self) -> (r: Vec2)
        ensures
            r.x == self.y, r.y == self.x,
    {
        self.yx()
    }

    /// The `gg` swizzle.
    pub fn gg(self) -> (r: Vec2)
        ensures
            r.x == self.y, r.y == self.y,
    {
        self.yy()
    }

    /// The `ss` swizzle.
    pub fn ss(self) -> (r: Vec2)
        ensures
            r.x == self.x, r.y == self.x,
    {
        self.xx()
    }

    /// The `st` swizzle.
    pub fn st(self) -> (r: Vec2)
        ensures
            r.x == self.x, r.y == self.y,
    {
        self
    }

    /// The `ts` swizzle.
    pub fn ts(self) -> (r: Vec2)
        ensures
            r.x == self.y, r.y == self.x,
    {
        self.yx()
    }

    /// The `tt` swizzle.
    pub fn tt(self) -> (r: Vec2)
        ensures
            r.x == self.y, r.y == self.y,
    {
        self.yy()
    }

    /// Component-wise product.
    pub fn mul_comp(self, rhs: Vec2) -> (r: Vec2)
        ensures
            r.x == dec_mul(self.x, rhs.x),
            r.y == dec_mul(self.y, rhs.y),
    {
        Vec2::new(self.x * rhs.x, self.y * rhs.y)
    }

    /// Component-wise quotient.
    pub fn div_comp(self, rhs: Vec2) -> (r: Vec2)
        requires
            rhs.x.0 != 0,
            rhs.y.0 != 0,
        ensures
            r.x == dec_div(self.x, rhs.x),
            r.y == dec_div(self.y, rhs.y),
    {
        Vec2::new(self.x / rhs.x, self.y / rhs.y)
    }
}

impl core::ops::Add for Vec2 {
    type Output = Vec2;

    fn add(self, rhs: Vec2) -> (r: Vec2)
        ensures
            r == (Vec2 { x: dec_add(self.x, rhs.x), y: dec_add(self.y, rhs.y) }),
    {
        Vec2::new(self.x + rhs.x, self.y + rhs.y)
    }
}

impl vstd::std_specs::ops::AddSpecImpl for Vec2 {
    open spec fn obeys_add_spec() -> bool {
        true
    }

    open spec fn add_req(self, rhs: Vec2) -> bool {
        true
    }

    open spec fn add_spec(self, rhs: Vec2) -> Vec2 {
        Vec2 { x: dec_add(self.x, rhs.x), y: dec_add(self.y, rhs.y) }
    }
}

impl core::ops::Sub for Vec2 {
    type Output = Vec2;

    fn sub(self, rhs: Vec2) -> (r: Vec2)
        ensures
            r == (Vec2 { x: dec_sub(self.x, rhs.x), y: dec_sub(self.y, rhs.y) }),
    {
        Vec2::new(self.x - rhs.x, self.y - rhs.y)
    }
}

impl vstd::std_specs::ops::SubSpecImpl for Vec2 {
    open spec fn obeys_sub_spec() -> bool {
        true
    }

    open spec fn sub_req(self, rhs: Vec2) -> bool {
        true
    }

    open spec fn sub_spec(self, rhs: Vec2) -> Vec2 {
        Vec2 { x: dec_sub(self.x, rhs.x), y: dec_sub(self.y, rhs.y) }
    }
}

impl core::ops::Mul<Dec32> for Vec2 {
    type Output = Vec2;

    fn mul(self, rhs: Dec32) -> (r: Vec2)
        ensures
            r == (Vec2 { x: dec_mul(self.x, rhs), y: dec_mul(self.y, rhs) }),
    {
        Vec2::new(self.x * rhs, self.y * rhs)
    }
}

impl vstd::std_specs::ops::MulSpecImpl<Dec32> for Vec2 {
    open spec fn obeys_mul_spec() -> bool {
        true
    }

    open spec fn mul_req(self, rhs: Dec32) -> bool {
        true
    }

    open spec fn mul_spec(self, rhs: Dec32) -> Vec2 {
        Vec2 { x: dec_mul(self.x, rhs), y: dec_mul(self.y, rhs) }
    }
}

impl core::ops::Div<Dec32> for Vec2 {
    type Output = Vec2;

    fn div(self, rhs: Dec32) -> (r: Vec2)
        ensures
            r == (Vec2 { x: dec_div(self.x, rhs), y: dec_div(self.y, rhs) }),
    {
        Vec2::new(self.x / rhs, self.y / rhs)
    }
}

impl vstd::std_specs::ops::DivSpecImpl<Dec32> for Vec2 {
    open spec fn obeys_div_spec() -> bool {
        true
    }

    open spec fn div_req(self, rhs: Dec32) -> bool {
        rhs.0 != 0
    }

    open spec fn div_spec(self, rhs: Dec32) -> Vec2 {
        Vec2 { x: dec_div(self.x, rhs), y: dec_div(self.y, rhs) }
    }
}

impl core::ops::Neg for Vec2 {
    type Output = Vec2;

    fn neg(self) -> (r: Vec2)
        ensures
            r == (Vec2 { x: dec_neg(self.x), y: dec_neg(self.y) }),
    {
        Vec2::new(self.x.neg(), self.y.neg())
    }
}

impl vstd::std_specs::ops::NegSpecImpl for Vec2 {
    open spec fn obeys_neg_spec() -> bool {
        true
    }

    open spec fn neg_req(self) -> bool {
        true
    }

    open spec fn neg_spec(self) -> Vec2 {
        Vec2 { x: dec_neg(self.x), y: dec_neg(self.y) }
    }
}

} // verus!
