//! Three-component vectors of fixed-point numbers.
use vstd::prelude::*;
use core::ops::Neg;

use super::advanced::{dec_sqrt, sqrt};
use super::dec32::{
    dec_add, dec_clamp, dec_div, dec_from_int, dec_mul, dec_neg, dec_sub, Dec32, ONE_RAW,
};
use super::vec2::Vec2;

verus! {

/// A 3D vector of fixed-point coordinates.
#[derive(Clone, Copy, Debug, PartialEq, Eq, Structural)]
pub struct Vec3 {
    pub x: Dec32,
    pub y: Dec32,
    pub z: Dec32,
}

/// Dot product `a.x * b.x + a.y * b.y + a.z * b.z`.
pub open spec fn dot3_spec(a: Vec3, b: Vec3) -> Dec32 {
    dec_add(dec_add(dec_mul(a.x, b.x), dec_mul(a.y, b.y)), dec_mul(a.z, b.z))
}

/// Component-wise difference.
pub open spec fn sub3_spec(a: Vec3, b: Vec3) -> Vec3 {
    Vec3 { x: dec_sub(a.x, b.x), y: dec_sub(a.y, b.y), z: dec_sub(a.z, b.z) }
}

/// Every component times the scalar `s`.
pub open spec fn scale3_spec(a: Vec3, s: Dec32) -> Vec3 {
    Vec3 { x: dec_mul(a.x, s), y: dec_mul(a.y, s), z: dec_mul(a.z, s) }
}

/// Cross product.
pub open spec fn cross3_spec(a: Vec3, b: Vec3) -> Vec3 {
    Vec3 {
        x: dec_sub(dec_mul(a.y, b.z), dec_mul(a.z, b.y)),
        y: dec_sub(dec_mul(a.z, b.x), dec_mul(a.x, b.z)),
        z: dec_sub(dec_mul(a.x, b.y), dec_mul(a.y, b.x)),
    }
}

/// Subtracting the other way round gives the negation, with wrapping as the fixed-point
/// operations wrap.
proof fn lemma_sub_swap(p: i32, q: i32)
    ensures
        dec_sub(Dec32(p), Dec32(q)) == dec_neg(dec_sub(Dec32(q), Dec32(p))),
{
    assert(((p - q) as i32) == ((-((q - p) as i32)) as i32)) by (bit_vector);
}

/// The fixed-point product does not depend on the order of its factors.
proof fn lemma_mul_commutes(a: Dec32, b: Dec32)
    ensures
        dec_mul(a, b) == dec_mul(b, a),
{
    assert(a.0 * b.0 == b.0 * a.0) by (nonlinear_arith);
}

/// The cross product is anti-commutative (`a x b == -(b x a)`, wrapping as the
/// fixed-point operations do), and the cross product of a vector with itself is zero.
pub proof fn lemma_cross_anticommutative(a: Vec3, b: Vec3)
    ensures
        cross3_spec(a, b) == (Vec3 {
            x: dec_neg(cross3_spec(b, a).x),
            y: dec_neg(cross3_spec(b, a).y),
            z: dec_neg(cross3_spec(b, a).z),
        }),
        cross3_spec(a, a) == (Vec3 { x: Dec32(0), y: Dec32(0), z: Dec32(0) }),
{
    lemma_mul_commutes(a.y, b.z);
    lemma_mul_commutes(a.z, b.y);
    lemma_mul_commutes(a.z, b.x);
    lemma_mul_commutes(a.x, b.z);
    lemma_mul_commutes(a.x, b.y);
    lemma_mul_commutes(a.y, b.x);
    lemma_mul_commutes(a.y, a.z);
    lemma_mul_commutes(a.z, a.x);
    lemma_mul_commutes(a.x, a.y);
    lemma_sub_swap(dec_mul(a.y, b.z).0, dec_mul(a.z, b.y).0);
    lemma_sub_swap(dec_mul(a.z, b.x).0, dec_mul(a.x, b.z).0);
    lemma_sub_swap(dec_mul(a.x, b.y).0, dec_mul(a.y, b.x).0);
}

/// `n` is one of the six unit vectors along the axes.
pub open spec fn is_axis_unit(n: Vec3) -> bool {
    let c = |d: Dec32| d.0 == 0 || d.0 == ONE_RAW || d.0 == -ONE_RAW;
    &&& c(n.x) && c(n.y) && c(n.z)
    &&& (n.x.0 != 0) as int + (n.y.0 != 0) as int + (n.z.0 != 0) as int == 1
}

/// Multiplying by zero gives zero, by one the value itself, by minus one its negation.
proof fn lemma_mul_unit(a: Dec32, u: Dec32)
    requires
        u.0 == 0 || u.0 == ONE_RAW || u.0 == -ONE_RAW,
        -0x4000_0000 < a.0 < 0x4000_0000,
    ensures
        u.0 == 0 ==> dec_mul(a, u).0 == 0 && dec_mul(u, a).0 == 0,
        u.0 == ONE_RAW ==> dec_mul(a, u) == a && dec_mul(u, a) == a,
        u.0 == -ONE_RAW ==> dec_mul(a, u).0 == -a.0 && dec_mul(u, a).0 == -a.0,
{
    let x = a.0 as int;
    assert((x * 0) / 65536 == 0 && (0 * x) / 65536 == 0) by (nonlinear_arith);
    assert((x * 65536) / 65536 == x && (65536 * x) / 65536 == x) by (nonlinear_arith);
    assert((x * -65536) / 65536 == -x && (-65536 * x) / 65536 == -x) by (nonlinear_arith);
}

/// Reflecting about an axis normal negates the component along that axis and keeps
/// the other two; the reflected vector's component along the normal is the negation
/// of the original's, and reflecting twice gives the vector back (components below
/// 2^29 raw in size, so that nothing wraps).
pub proof fn lemma_reflect_axis(v: Vec3, n: Vec3)
    requires
        is_axis_unit(n),
        -0x2000_0000 < v.x.0 < 0x2000_0000,
        -0x2000_0000 < v.y.0 < 0x2000_0000,
        -0x2000_0000 < v.z.0 < 0x2000_0000,
    ensures
        reflect3_spec(v, n) == (Vec3 {
            x: if n.x.0 != 0 { dec_neg(v.x) } else { v.x },
            y: if n.y.0 != 0 { dec_neg(v.y) } else { v.y },
            z: if n.z.0 != 0 { dec_neg(v.z) } else { v.z },
        }),
        dot3_spec(reflect3_spec(v, n), n) == dec_neg(dot3_spec(v, n)),
        reflect3_spec(reflect3_spec(v, n), n) == v,
{
    lemma_reflect_axis_once(v, n);
    let w = reflect3_spec(v, n);
    lemma_reflect_axis_once(w, n);
    lemma_mul_unit(v.x, n.x);
    lemma_mul_unit(v.y, n.y);
    lemma_mul_unit(v.z, n.z);
    lemma_mul_unit(w.x, n.x);
    lemma_mul_unit(w.y, n.y);
    lemma_mul_unit(w.z, n.z);
}

/// One reflection about an axis normal, component by component.
proof fn lemma_reflect_axis_once(v: Vec3, n: Vec3)
    requires
        is_axis_unit(n),
        -0x2000_0000 < v.x.0 < 0x2000_0000,
        -0x2000_0000 < v.y.0 < 0x2000_0000,
        -0x2000_0000 < v.z.0 < 0x2000_0000,
    ensures
        reflect3_spec(v, n) == (Vec3 {
            x: if n.x.0 != 0 { dec_neg(v.x) } else { v.x },
            y: if n.y.0 != 0 { dec_neg(v.y) } else { v.y },
            z: if n.z.0 != 0 { dec_neg(v.z) } else { v.z },
        }),
{
    lemma_mul_unit(v.x, n.x);
    lemma_mul_unit(v.y, n.y);
    lemma_mul_unit(v.z, n.z);
    let d = dot3_spec(v, n);
    let dv = if n.x.0 != 0 { dec_mul(v.x, n.x) } else if n.y.0 != 0 { dec_mul(v.y, n.y) } else { dec_mul(v.z, n.z) };
    assert(d == dv);
    assert(-0x2000_0000 < d.0 < 0x2000_0000);
    let d2 = dec_mul(d, Dec32(131072i32));
    assert((d.0 * 131072) / 65536 == 2 * d.0) by (nonlinear_arith);
    assert(d2.0 == 2 * d.0);
    lemma_mul_unit(d2, n.x);
    lemma_mul_unit(d2, n.y);
    lemma_mul_unit(d2, n.z);
}

/// Length: the fixed-point square root of the squared length.
pub open spec fn length3_spec(a: Vec3) -> Dec32 {
    dec_sqrt(dot3_spec(a, a))
}

/// `a` divided by its length, or the zero vector where the length is 0.
pub open spec fn normalize3_spec(a: Vec3) -> Vec3 {
    let len = length3_spec(a);
    if len.0 == 0 {
        Vec3 { x: Dec32(0), y: Dec32(0), z: Dec32(0) }
    } else {
        Vec3 { x: dec_div(a.x, len), y: dec_div(a.y, len), z: dec_div(a.z, len) }
    }
}

/// Reflection of `v` about the normal `n`: `v - n * (2 * dot(v, n))`.
pub open spec fn reflect3_spec(v: Vec3, n: Vec3) -> Vec3 {
    sub3_spec(v, scale3_spec(n, dec_mul(dot3_spec(v, n), Dec32(131072i32))))
}

impl Vec3 {
    /// A vector from its three components.
    pub fn new(x: Dec32, y: Dec32, z: Dec32) -> (r: Vec3)
        ensures
            r.x == x,
            r.y == y,
            r.z == z,
    {
        Vec3 { x, y, z }
    }

    /// A vector from three integers.
    pub fn from_i32(x: i32, y: i32, z: i32) -> (r: Vec3)
        ensures
            r.x == dec_from_int(x as int),
            r.y == dec_from_int(y as int),
            r.z == dec_from_int(z as int),
    {
        Vec3 { x: Dec32::from_i32(x), y: Dec32::from_i32(y), z: Dec32::from_i32(z) }
    }

    /// The zero vector.
    pub fn zero() -> (r: Vec3)
        ensures
            r.x.0 == 0 && r.y.0 == 0 && r.z.0 == 0,
    {
        Vec3::new(Dec32(0), Dec32(0), Dec32(0))
    }

    /// The vector (1, 1, 1).
    pub fn one() -> (r: Vec3)
        ensures
            r.x.0 == ONE_RAW && r.y.0 == ONE_RAW && r.z.0 == ONE_RAW,
    {
        Vec3::new(Dec32::one(), Dec32::one(), Dec32::one())
    }

    /// Dot product.
    pub fn dot(self, rhs: Vec3) -> (r: Dec32)
        ensures
            r == dot3_spec(self, rhs),
    {
        (self.x * rhs.x) + (self.y * rhs.y) + (self.z * rhs.z)
    }

    /// Cross product.
    pub fn cross(self, rhs: Vec3) -> (r: Vec3)
        ensures
            r == cross3_spec(self, rhs),
    {
        Vec3::new(
            (self.y * rhs.z) - (self.z * rhs.y),
            (self.z * rhs.x) - (self.x * rhs.z),
            (self.x * rhs.y) - (self.y * rhs.x),
        )
    }

    /// Squared length.
    pub fn length_squared(self) -> (r: Dec32)
        ensures
            r == dot3_spec(self, self),
    {
        self.dot(self)
    }

    /// Length.
    pub fn length(self) -> (r: Dec32)
        ensures
            r == length3_spec(self),
    {
        sqrt(self.length_squared())
    }

    /// Distance between two vectors.
    pub fn distance(self, other: Vec3) -> (r: Dec32)
        ensures
            r == length3_spec(sub3_spec(self, other)),
    {
        (self - other).length()
    }

    /// Unit vector in the same direction (the zero vector stays zero).
    pub fn normalize(self) -> (r: Vec3)
        ensures
            r == normalize3_spec(self),
    {
        let len = self.length();
        if len.0 == 0 {
            return Vec3::zero();
        }
        self / len
    }

    /// The x component.
    pub fn x(self) -> (r: Dec32)
        ensures
            r == self.x,
    {
        self.x
    }

    /// The y component.
    pub fn y(self) -> (r: Dec32)
        ensures
            r == self.y,
    {
        self.y
    }

    /// The z component.
    pub fn z(self) -> (r: Dec32)
        ensures
            r == self.z,
    {
        self.z
    }

    /// The x component (color name).
    pub fn r(self) -> (r: Dec32)
        ensures
            r == self.x,
    {
        self.x
    }

    /// The y component (color name).
    pub fn g(self) -> (r: Dec32)
        ensures
            r == self.y,
    {
        self.y
    }

    /// The z component (color name).
    pub fn b(self) -> (r: Dec32)
        ensures
            r == self.z,
    {
        self.z
    }

    /// The `xy` swizzle.
    pub fn xy(self) -> (r: Vec2)
        ensures
            r.x == self.x, r.y == self.y,
    {
        Vec2::new(self.x, self.y)
    }

    /// The `xz` swizzle.
    pub fn xz(self) -> (r: Vec2)
        ensures
            r.x == self.x, r.y == self.z,
    {
        Vec2::new(self.x, self.z)
    }

    /// The `yz` swizzle.
    pub fn yz(self) -> (r: Vec2)
        ensures
            r.x == self.y, r.y == self.z,
    {
        Vec2::new(self.y, self.z)
    }

    /// The `yx` swizzle.
    pub fn yx(self) -> (r: Vec2)
        ensures
            r.x == self.y, r.y == self.x,
    {
        Vec2::new(self.y, self.x)
    }

    /// The `zx` swizzle.
    pub fn zx(self) -> (r: Vec2)
        ensures
            r.x == self.z, r.y == self.x,
    {
        Vec2::new(self.z, self.x)
    }

    /// The `zy` swizzle.
    pub fn zy(self) -> (r: Vec2)
        ensures
            r.x == self.z, r.y == self.y,
    {
        Vec2::new(self.z, self.y)
    }

    /// The `xyz` swizzle.
    pub fn xyz(self) -> (r: Vec3)
        ensures
            r.x == self.x, r.y == self.y, r.z == self.z,
    {
        self
    }

    /// The `xzy` swizzle.
    pub fn xzy(self) -> (r: Vec3)
        ensures
            r.x == self.x, r.y == self.z, r.z == self.y,
    {
        Vec3::new(self.x, self.z, self.y)
    }

    /// The `yxz` swizzle.
    pub fn yxz(self) -> (r: Vec3)
        ensures
            r.x == self.y, r.y == self.x, r.z == self.z,
    {
        Vec3::new(self.y, self.x, self.z)
    }

    /// The `yzx` swizzle.
    pub fn yzx(self) -> (r: Vec3)
        ensures
            r.x == self.y, r.y == self.z, r.z == self.x,
    {
        Vec3::new(self.y, self.z, self.x)
    }

    /// The `zxy` swizzle.
    pub fn zxy(self) -> (r: Vec3)
        ensures
            r.x == self.z, r.y == self.x, r.z == self.y,
    {
        Vec3::new(self.z, self.x, self.y)
    }

    /// The `zyx` swizzle.
    pub fn zyx(self) -> (r: Vec3)
        ensures
            r.x == self.z, r.y == self.y, r.z == self.x,
    {
        Vec3::new(self.z, self.y, self.x)
    }

    /// The `rg` swizzle.
    pub fn rg(self) -> (r: Vec2)
        ensures
            r.x == self.x, r.y == self.y,
    {
        self.xy()
    }

    /// The `rb` swizzle.
    pub fn rb(self) -> (r: Vec2)
        ensures
            r.x == self.x, r.y == self.z,
    {
        self.xz()
    }

    /// The `gb` swizzle.
    pub fn gb(self) -> (r: Vec2)
        ensures
            r.x == self.y, r.y == self.z,
    {
        self.yz()
    }

    /// The `rgb` swizzle.
    pub fn rgb(self) -> (r: Vec3)
        ensures
            r.x == self.x, r.y == self.y, r.z == self.z,
    {
        self
    }

    /// Component-wise product.
    pub fn mul_comp(self, rhs: Vec3) -> (r: Vec3)
        ensures
            r.x == dec_mul(self.x, rhs.x),
            r.y == dec_mul(self.y, rhs.y),
            r.z == dec_mul(self.z, rhs.z),
    {
        Vec3::new(self.x * rhs.x, self.y * rhs.y, self.z * rhs.z)
    }

    /// Component-wise quotient.
    pub fn div_comp(self, rhs: Vec3) -> (r: Vec3)
        requires
            rhs.x.0 != 0,
            rhs.y.0 != 0,
            rhs.z.0 != 0,
        ensures
            r.x == dec_div(self.x, rhs.x),
            r.y == dec_div(self.y, rhs.y),
            r.z == dec_div(self.z, rhs.z),
    {
        Vec3::new(self.x / rhs.x, self.y / rhs.y, self.z / rhs.z)
    }

    /// Every component limited to `min..=max`.
    pub fn clamp(self, min: Dec32, max: Dec32) -> (r: Vec3)
        ensures
            r.x == dec_clamp(self.x, min, max),
            r.y == dec_clamp(self.y, min, max),
            r.z == dec_clamp(self.z, min, max),
    {
        Vec3::new(self.x.clamp(min, max), self.y.clamp(min, max), self.z.clamp(min, max))
    }

    /// Reflection about a normal: `v - 2 * dot(v, n) * n`.
    pub fn reflect(self, normal: Vec3) -> (r: Vec3)
        ensures
            r == reflect3_spec(self, normal),
    {
        let dot_2 = self.dot(normal) * Dec32(131072);
        self - (normal * dot_2)
    }
}

impl core::ops::Add for Vec3 {
    type Output = Vec3;

    fn add(self, rhs: Vec3) -> (r: Vec3)
        ensures
            r == (Vec3 { x: dec_add(self.x, rhs.x), y: dec_add(self.y, rhs.y), z: dec_add(self.z, rhs.z) }),
    {
        Vec3::new(self.x + rhs.x, self.y + rhs.y, self.z + rhs.z)
    }
}

impl vstd::std_specs::ops::AddSpecImpl for Vec3 {
    open spec fn obeys_add_spec() -> bool {
        true
    }

    open spec fn add_req(self, rhs: Vec3) -> bool {
        true
    }

    open spec fn add_spec(self, rhs: Vec3) -> Vec3 {
        Vec3 { x: dec_add(self.x, rhs.x), y: dec_add(self.y, rhs.y), z: dec_add(self.z, rhs.z) }
    }
}

impl core::ops::Sub for Vec3 {
    type Output = Vec3;

    fn sub(self, rhs: Vec3) -> (r: Vec3)
        ensures
            r == (Vec3 { x: dec_sub(self.x, rhs.x), y: dec_sub(self.y, rhs.y), z: dec_sub(self.z, rhs.z) }),
    {
        Vec3::new(self.x - rhs.x, self.y - rhs.y, self.z - rhs.z)
    }
}

impl vstd::std_specs::ops::SubSpecImpl for Vec3 {
    open spec fn obeys_sub_spec() -> bool {
        true
    }

    open spec fn sub_req(self, rhs: Vec3) -> bool {
        true
    }

    open spec fn sub_spec(self, rhs: Vec3) -> Vec3 {
        Vec3 { x: dec_sub(self.x, rhs.x), y: dec_sub(self.y, rhs.y), z: dec_sub(self.z, rhs.z) }
    }
}

impl core::ops::Mul<Dec32> for Vec3 {
    type Output = Vec3;

    fn mul(self, rhs: Dec32) -> (r: Vec3)
        ensures
            r == (Vec3 { x: dec_mul(self.x, rhs), y: dec_mul(self.y, rhs), z: dec_mul(self.z, rhs) }),
    {
        Vec3::new(self.x * rhs, self.y * rhs, self.z * rhs)
    }
}

impl vstd::std_specs::ops::MulSpecImpl<Dec32> for Vec3 {
    open spec fn obeys_mul_spec() -> bool {
        true
    }

    open spec fn mul_req(self, rhs: Dec32) -> bool {
        true
    }

    open spec fn mul_spec(self, rhs: Dec32) -> Vec3 {
        Vec3 { x: dec_mul(self.x, rhs), y: dec_mul(self.y, rhs), z: dec_mul(self.z, rhs) }
    }
}

impl core::ops::Div<Dec32> for Vec3 {
    type Output = Vec3;

    fn div(self, rhs: Dec32) -> (r: Vec3)
        ensures
            r == (Vec3 { x: dec_div(self.x, rhs), y: dec_div(self.y, rhs), z: dec_div(self.z, rhs) }),
    {
        Vec3::new(self.x / rhs, self.y / rhs, self.z / rhs)
    }
}

impl vstd::std_specs::ops::DivSpecImpl<Dec32> for Vec3 {
    open spec fn obeys_div_spec() -> bool {
        true
    }

    open spec fn div_req(self, rhs: Dec32) -> bool {
        rhs.0 != 0
    }

    open spec fn div_spec(self, rhs: Dec32) -> Vec3 {
        Vec3 { x: dec_div(self.x, rhs), y: dec_div(self.y, rhs), z: dec_div(self.z, rhs) }
    }
}

impl core::ops::Neg for Vec3 {
    type Output = Vec3;

    fn neg(self) -> (r: Vec3)
        ensures
            r == (Vec3 { x: dec_neg(self.x), y: dec_neg(self.y), z: dec_neg(self.z) }),
    {
        Vec3::new(self.x.neg(), self.y.neg(), self.z.neg())
    }
}

impl vstd::std_specs::ops::NegSpecImpl for Vec3 {
    open spec fn obeys_neg_spec() -> bool {
        true
    }

    open spec fn neg_req(self) -> bool {
        true
    }

    open spec fn neg_spec(self) -> Vec3 {
        Vec3 { x: dec_neg(self.x), y: dec_neg(self.y), z: dec_neg(self.z) }
    }
}

} // verus!
