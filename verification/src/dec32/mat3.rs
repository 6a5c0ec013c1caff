//! 3x3 matrices of fixed-point numbers (GLSL layout: column-major).
use vstd::prelude::*;
use core::ops::Neg;

use super::dec32::{dec_add, dec_div, dec_mul, dec_neg, dec_sub, Dec32, ONE_RAW};
use super::vec3::Vec3;

verus! {

/// A 3x3 matrix stored column by column:
/// `[m00, m10, m20, m01, m11, m21, m02, m12, m22]`, where `mRC` is row `R`, column `C`.
#[derive(Clone, Copy, Debug, PartialEq)]
pub struct Mat3 {
    pub m: [Dec32; 9],
}

/// The matrix with the given entries in storage order.
pub open spec fn mat3_of(
    e0: Dec32, e1: Dec32, e2: Dec32, e3: Dec32, e4: Dec32, e5: Dec32, e6: Dec32, e7: Dec32,
    e8: Dec32,
) -> Mat3 {
    Mat3 { m: [e0, e1, e2, e3, e4, e5, e6, e7, e8] }
}

/// Matrix product `a * b` in fixed-point arithmetic.
pub open spec fn mat3_mul_spec(a: Mat3, b: Mat3) -> Mat3 {
    mat3_of(
        dec_add(dec_add(dec_mul(a.m[0], b.m[0]), dec_mul(a.m[3], b.m[1])), dec_mul(a.m[6], b.m[2])),
        dec_add(dec_add(dec_mul(a.m[1], b.m[0]), dec_mul(a.m[4], b.m[1])), dec_mul(a.m[7], b.m[2])),
        dec_add(dec_add(dec_mul(a.m[2], b.m[0]), dec_mul(a.m[5], b.m[1])), dec_mul(a.m[8], b.m[2])),
        dec_add(dec_add(dec_mul(a.m[0], b.m[3]), dec_mul(a.m[3], b.m[4])), dec_mul(a.m[6], b.m[5])),
        dec_add(dec_add(dec_mul(a.m[1], b.m[3]), dec_mul(a.m[4], b.m[4])), dec_mul(a.m[7], b.m[5])),
        dec_add(dec_add(dec_mul(a.m[2], b.m[3]), dec_mul(a.m[5], b.m[4])), dec_mul(a.m[8], b.m[5])),
        dec_add(dec_add(dec_mul(a.m[0], b.m[6]), dec_mul(a.m[3], b.m[7])), dec_mul(a.m[6], b.m[8])),
        dec_add(dec_add(dec_mul(a.m[1], b.m[6]), dec_mul(a.m[4], b.m[7])), dec_mul(a.m[7], b.m[8])),
        dec_add(dec_add(dec_mul(a.m[2], b.m[6]), dec_mul(a.m[5], b.m[7])), dec_mul(a.m[8], b.m[8])),
    )
}

/// Matrix-vector product `m * v`.
pub open spec fn mat3_mul_vec3_spec(m: Mat3, v: Vec3) -> Vec3 {
    Vec3 { x: dec_add(dec_add(dec_mul(m.m[0], v.x), dec_mul(m.m[3], v.y)), dec_mul(m.m[6], v.z)), y: dec_add(dec_add(dec_mul(m.m[1], v.x), dec_mul(m.m[4], v.y)), dec_mul(m.m[7], v.z)), z: dec_add(dec_add(dec_mul(m.m[2], v.x), dec_mul(m.m[5], v.y)), dec_mul(m.m[8], v.z)) }
}

/// Determinant by the rule of Sarrus.
pub open spec fn mat3_det_spec(m: Mat3) -> Dec32 {
    let a = dec_mul(dec_mul(m.m[0], m.m[4]), m.m[8]);
    let b = dec_mul(dec_mul(m.m[1], m.m[5]), m.m[6]);
    let c = dec_mul(dec_mul(m.m[2], m.m[3]), m.m[7]);
    let d = dec_mul(dec_mul(m.m[2], m.m[4]), m.m[6]);
    let e = dec_mul(dec_mul(m.m[0], m.m[5]), m.m[7]);
    let f = dec_mul(dec_mul(m.m[1], m.m[3]), m.m[8]);
    dec_sub(dec_add(dec_add(a, b), c), dec_add(dec_add(d, e), f))
}

/// Entry `i` (storage order) of the adjugate of `m`.
pub open spec fn mat3_adj_spec(m: Mat3, i: int) -> Dec32 {
    if i == 0 { dec_sub(dec_mul(m.m[4], m.m[8]), dec_mul(m.m[5], m.m[7])) } else
    if i == 1 { dec_neg(dec_sub(dec_mul(m.m[1], m.m[8]), dec_mul(m.m[2], m.m[7]))) } else
    if i == 2 { dec_sub(dec_mul(m.m[1], m.m[5]), dec_mul(m.m[2], m.m[4])) } else
    if i == 3 { dec_neg(dec_sub(dec_mul(m.m[3], m.m[8]), dec_mul(m.m[5], m.m[6]))) } else
    if i == 4 { dec_sub(dec_mul(m.m[0], m.m[8]), dec_mul(m.m[2], m.m[6])) } else
    if i == 5 { dec_neg(dec_sub(dec_mul(m.m[0], m.m[5]), dec_mul(m.m[2], m.m[3]))) } else
    if i == 6 { dec_sub(dec_mul(m.m[3], m.m[7]), dec_mul(m.m[4], m.m[6])) } else
    if i == 7 { dec_neg(dec_sub(dec_mul(m.m[0], m.m[7]), dec_mul(m.m[1], m.m[6]))) } else
    { dec_sub(dec_mul(m.m[0], m.m[4]), dec_mul(m.m[1], m.m[3])) }
}

/// The inverse as `inverse` computes it: `None` where the determinant is zero,
/// otherwise the adjugate times `1 / det`.
pub open spec fn mat3_inverse_spec(m: Mat3) -> Option<Mat3> {
    let det = mat3_det_spec(m);
    if det.0 == 0 {
        None
    } else {
        let inv_det = dec_div(Dec32(ONE_RAW), det);
        Some(mat3_of(
            dec_mul(mat3_adj_spec(m, 0), inv_det),
            dec_mul(mat3_adj_spec(m, 1), inv_det),
            dec_mul(mat3_adj_spec(m, 2), inv_det),
            dec_mul(mat3_adj_spec(m, 3), inv_det),
            dec_mul(mat3_adj_spec(m, 4), inv_det),
            dec_mul(mat3_adj_spec(m, 5), inv_det),
            dec_mul(mat3_adj_spec(m, 6), inv_det),
            dec_mul(mat3_adj_spec(m, 7), inv_det),
            dec_mul(mat3_adj_spec(m, 8), inv_det),
        ))
    }
}

impl Mat3 {
    /// A matrix from nine values in storage (column-major) order.
    #[allow(clippy::too_many_arguments)]
    pub fn new(
        m00: Dec32,
        m10: Dec32,
        m20: Dec32,
        m01: Dec32,
        m11: Dec32,
        m21: Dec32,
        m02: Dec32,
        m12: Dec32,
        m22: Dec32,
    ) -> (r: Mat3)
        ensures
            r == mat3_of(m00, m10, m20, m01, m11, m21, m02, m12, m22),
    {
        Mat3 { m: [m00, m10, m20, m01, m11, m21, m02, m12, m22] }
    }

    /// A matrix from its three columns.
    pub fn from_vec3(col0: Vec3, col1: Vec3, col2: Vec3) -> (r: Mat3)
        ensures
            r == mat3_of(col0.x, col0.y, col0.z, col1.x, col1.y, col1.z, col2.x, col2.y, col2.z),
    {
        Mat3::new(col0.x, col0.y, col0.z, col1.x, col1.y, col1.z, col2.x, col2.y, col2.z)
    }

    /// The identity matrix.
    pub fn identity() -> (r: Mat3)
        ensures
            r == mat3_of(
                Dec32(ONE_RAW),
                Dec32(0),
                Dec32(0),
                Dec32(0),
                Dec32(ONE_RAW),
                Dec32(0),
                Dec32(0),
                Dec32(0),
                Dec32(ONE_RAW),
            ),
    {
        Mat3::new(
            Dec32::one(),
            Dec32(0),
            Dec32(0),
            Dec32(0),
            Dec32::one(),
            Dec32(0),
            Dec32(0),
            Dec32(0),
            Dec32::one(),
        )
    }

    /// The zero matrix.
    pub fn zero() -> (r: Mat3)
        ensures
            forall|i: int| 0 <= i < 9 ==> #[trigger] r.m[i] == Dec32(0),
    {
        Mat3::new(
            Dec32(0),
            Dec32(0),
            Dec32(0),
            Dec32(0),
            Dec32(0),
            Dec32(0),
            Dec32(0),
            Dec32(0),
            Dec32(0),
        )
    }

    /// The entry at `row`, `col`.
    pub fn get(self, row: usize, col: usize) -> (r: Dec32)
        requires
            col * 3 + row < 9,
        ensures
            r == self.m[col * 3 + row],
    {
        self.m[col * 3 + row]
    }

    /// Replace the entry at `row`, `col`.
    pub fn set(&mut self, row: usize, col: usize, value: Dec32)
        requires
            col * 3 + row < 9,
        ensures
            final(self).m@ == old(self).m@.update(col * 3 + row, value),
    {
        self.m[col * 3 + row] = value;
    }

    /// Column 0.
    pub fn col0(self) -> (r: Vec3)
        ensures
            r == (Vec3 { x: self.m[0], y: self.m[1], z: self.m[2] }),
    {
        Vec3::new(self.m[0], self.m[1], self.m[2])
    }

    /// Column 1.
    pub fn col1(self) -> (r: Vec3)
        ensures
            r == (Vec3 { x: self.m[3], y: self.m[4], z: self.m[5] }),
    {
        Vec3::new(self.m[3], self.m[4], self.m[5])
    }

    /// Column 2.
    pub fn col2(self) -> (r: Vec3)
        ensures
            r == (Vec3 { x: self.m[6], y: self.m[7], z: self.m[8] }),
    {
        Vec3::new(self.m[6], self.m[7], self.m[8])
    }

    /// Matrix product.
    #[allow(clippy::should_implement_trait)]
    pub fn mul(self, rhs: Mat3) -> (r: Mat3)
        ensures
            r == mat3_mul_spec(self, rhs),
    {
        let a = self;
        let b = rhs;
        Mat3::new(
            a.m[0] * b.m[0] + a.m[3] * b.m[1] + a.m[6] * b.m[2],
            a.m[1] * b.m[0] + a.m[4] * b.m[1] + a.m[7] * b.m[2],
            a.m[2] * b.m[0] + a.m[5] * b.m[1] + a.m[8] * b.m[2],
            a.m[0] * b.m[3] + a.m[3] * b.m[4] + a.m[6] * b.m[5],
            a.m[1] * b.m[3] + a.m[4] * b.m[4] + a.m[7] * b.m[5],
            a.m[2] * b.m[3] + a.m[5] * b.m[4] + a.m[8] * b.m[5],
            a.m[0] * b.m[6] + a.m[3] * b.m[7] + a.m[6] * b.m[8],
            a.m[1] * b.m[6] + a.m[4] * b.m[7] + a.m[7] * b.m[8],
            a.m[2] * b.m[6] + a.m[5] * b.m[7] + a.m[8] * b.m[8],
        )
    }

    /// Every entry times the scalar `s`.
    pub fn mul_scalar(self, s: Dec32) -> (r: Mat3)
        ensures
            r == mat3_of(dec_mul(self.m[0], s), dec_mul(self.m[1], s), dec_mul(self.m[2], s), dec_mul(self.m[3], s), dec_mul(self.m[4], s), dec_mul(self.m[5], s), dec_mul(self.m[6], s), dec_mul(self.m[7], s), dec_mul(self.m[8], s)),
    {
        Mat3::new(
            self.m[0] * s,
            self.m[1] * s,
            self.m[2] * s,
            self.m[3] * s,
            self.m[4] * s,
            self.m[5] * s,
            self.m[6] * s,
            self.m[7] * s,
            self.m[8] * s,
        )
    }

    /// Matrix-vector product.
    pub fn mul_vec3(self, v: Vec3) -> (r: Vec3)
        ensures
            r == mat3_mul_vec3_spec(self, v),
    {
        Vec3::new(
            self.m[0] * v.x + self.m[3] * v.y + self.m[6] * v.z,
            self.m[1] * v.x + self.m[4] * v.y + self.m[7] * v.z,
            self.m[2] * v.x + self.m[5] * v.y + self.m[8] * v.z,
        )
    }

    /// Transpose.
    pub fn transpose(self) -> (r: Mat3)
        ensures
            r == mat3_of(self.m[0], self.m[3], self.m[6], self.m[1], self.m[4], self.m[7], self.m[2], self.m[5], self.m[8]),
    {
        Mat3::new(
            self.m[0],
            self.m[3],
            self.m[6],
            self.m[1],
            self.m[4],
            self.m[7],
            self.m[2],
            self.m[5],
            self.m[8],
        )
    }

    /// Determinant (rule of Sarrus).
    pub fn determinant(self) -> (r: Dec32)
        ensures
            r == mat3_det_spec(self),
    {
        let m = &self.m;
        let a = m[0] * m[4] * m[8];
        let b = m[1] * m[5] * m[6];
        let c = m[2] * m[3] * m[7];
        let d = m[2] * m[4] * m[6];
        let e = m[0] * m[5] * m[7];
        let f = m[1] * m[3] * m[8];
        (a + b + c) - (d + e + f)
    }

    /// Inverse: `None` where the determinant is zero.
    pub fn inverse(self) -> (r: Option<Mat3>)
        ensures
            r == mat3_inverse_spec(self),
    {
        let det = self.determinant();
        if det.0 == 0 {
            return None;
        }
        let m = &self.m;
        let c00 = m[4] * m[8] - m[5] * m[7];
        let c01 = (m[1] * m[8] - m[2] * m[7]).neg();
        let c02 = m[1] * m[5] - m[2] * m[4];
        let c10 = (m[3] * m[8] - m[5] * m[6]).neg();
        let c11 = m[0] * m[8] - m[2] * m[6];
        let c12 = (m[0] * m[5] - m[2] * m[3]).neg();
        let c20 = m[3] * m[7] - m[4] * m[6];
        let c21 = (m[0] * m[7] - m[1] * m[6]).neg();
        let c22 = m[0] * m[4] - m[1] * m[3];
        let inv_det = Dec32::one() / det;
        Some(
            Mat3::new(
                c00 * inv_det,
                c01 * inv_det,
                c02 * inv_det,
                c10 * inv_det,
                c11 * inv_det,
                c12 * inv_det,
                c20 * inv_det,
                c21 * inv_det,
                c22 * inv_det,
            ),
        )
    }
}

impl core::ops::Add for Mat3 {
    type Output = Mat3;

    fn add(self, rhs: Mat3) -> (r: Mat3)
        ensures
            r == mat3_of(dec_add(self.m[0], rhs.m[0]), dec_add(self.m[1], rhs.m[1]), dec_add(self.m[2], rhs.m[2]), dec_add(self.m[3], rhs.m[3]), dec_add(self.m[4], rhs.m[4]), dec_add(self.m[5], rhs.m[5]), dec_add(self.m[6], rhs.m[6]), dec_add(self.m[7], rhs.m[7]), dec_add(self.m[8], rhs.m[8])),
    {
        Mat3::new(
            self.m[0] + rhs.m[0],
            self.m[1] + rhs.m[1],
            self.m[2] + rhs.m[2],
            self.m[3] + rhs.m[3],
            self.m[4] + rhs.m[4],
            self.m[5] + rhs.m[5],
            self.m[6] + rhs.m[6],
            self.m[7] + rhs.m[7],
            self.m[8] + rhs.m[8],
        )
    }
}

impl vstd::std_specs::ops::AddSpecImpl for Mat3 {
    open spec fn obeys_add_spec() -> bool {
        true
    }

    open spec fn add_req(self, rhs: Mat3) -> bool {
        true
    }

    open spec fn add_spec(self, rhs: Mat3) -> Mat3 {
        mat3_of(dec_add(self.m[0], rhs.m[0]), dec_add(self.m[1], rhs.m[1]), dec_add(self.m[2], rhs.m[2]), dec_add(self.m[3], rhs.m[3]), dec_add(self.m[4], rhs.m[4]), dec_add(self.m[5], rhs.m[5]), dec_add(self.m[6], rhs.m[6]), dec_add(self.m[7], rhs.m[7]), dec_add(self.m[8], rhs.m[8]))
    }
}

impl core::ops::Sub for Mat3 {
    type Output = Mat3;

    fn sub(self, rhs: Mat3) -> (r: Mat3)
        ensures
            r == mat3_of(dec_sub(self.m[0], rhs.m[0]), dec_sub(self.m[1], rhs.m[1]), dec_sub(self.m[2], rhs.m[2]), dec_sub(self.m[3], rhs.m[3]), dec_sub(self.m[4], rhs.m[4]), dec_sub(self.m[5], rhs.m[5]), dec_sub(self.m[6], rhs.m[6]), dec_sub(self.m[7], rhs.m[7]), dec_sub(self.m[8], rhs.m[8])),
    {
        Mat3::new(
            self.m[0] - rhs.m[0],
            self.m[1] - rhs.m[1],
            self.m[2] - rhs.m[2],
            self.m[3] - rhs.m[3],
            self.m[4] - rhs.m[4],
            self.m[5] - rhs.m[5],
            self.m[6] - rhs.m[6],
            self.m[7] - rhs.m[7],
            self.m[8] - rhs.m[8],
        )
    }
}

impl vstd::std_specs::ops::SubSpecImpl for Mat3 {
    open spec fn obeys_sub_spec() -> bool {
        true
    }

    open spec fn sub_req(self, rhs: Mat3) -> bool {
        true
    }

    open spec fn sub_spec(self, rhs: Mat3) -> Mat3 {
        mat3_of(dec_sub(self.m[0], rhs.m[0]), dec_sub(self.m[1], rhs.m[1]), dec_sub(self.m[2], rhs.m[2]), dec_sub(self.m[3], rhs.m[3]), dec_sub(self.m[4], rhs.m[4]), dec_sub(self.m[5], rhs.m[5]), dec_sub(self.m[6], rhs.m[6]), dec_sub(self.m[7], rhs.m[7]), dec_sub(self.m[8], rhs.m[8]))
    }
}

impl core::ops::Div<Dec32> for Mat3 {
    type Output = Mat3;

    fn div(self, rhs: Dec32) -> (r: Mat3)
        ensures
            r == mat3_of(dec_div(self.m[0], rhs), dec_div(self.m[1], rhs), dec_div(self.m[2], rhs), dec_div(self.m[3], rhs), dec_div(self.m[4], rhs), dec_div(self.m[5], rhs), dec_div(self.m[6], rhs), dec_div(self.m[7], rhs), dec_div(self.m[8], rhs)),
    {
        Mat3::new(
            self.m[0] / rhs,
            self.m[1] / rhs,
            self.m[2] / rhs,
            self.m[3] / rhs,
            self.m[4] / rhs,
            self.m[5] / rhs,
            self.m[6] / rhs,
            self.m[7] / rhs,
            self.m[8] / rhs,
        )
    }
}

impl vstd::std_specs::ops::DivSpecImpl<Dec32> for Mat3 {
    open spec fn obeys_div_spec() -> bool {
        true
    }

    open spec fn div_req(self, rhs: Dec32) -> bool {
        rhs.0 != 0
    }

    open spec fn div_spec(self, rhs: Dec32) -> Mat3 {
        mat3_of(dec_div(self.m[0], rhs), dec_div(self.m[1], rhs), dec_div(self.m[2], rhs), dec_div(self.m[3], rhs), dec_div(self.m[4], rhs), dec_div(self.m[5], rhs), dec_div(self.m[6], rhs), dec_div(self.m[7], rhs), dec_div(self.m[8], rhs))
    }
}

impl core::ops::Mul for Mat3 {
    type Output = Mat3;

    fn mul(self, rhs: Mat3) -> (r: Mat3)
        ensures
            r == mat3_mul_spec(self, rhs),
    {
        Mat3::mul(self, rhs)
    }
}

impl vstd::std_specs::ops::MulSpecImpl for Mat3 {
    open spec fn obeys_mul_spec() -> bool {
        true
    }

    open spec fn mul_req(self, rhs: Mat3) -> bool {
        true
    }

    open spec fn mul_spec(self, rhs: Mat3) -> Mat3 {
        mat3_mul_spec(self, rhs)
    }
}

impl core::ops::Neg for Mat3 {
    type Output = Mat3;

    fn neg(self) -> (r: Mat3)
        ensures
            r == mat3_of(dec_neg(self.m[0]), dec_neg(self.m[1]), dec_neg(self.m[2]), dec_neg(self.m[3]), dec_neg(self.m[4]), dec_neg(self.m[5]), dec_neg(self.m[6]), dec_neg(self.m[7]), dec_neg(self.m[8])),
    {
        Mat3::new(
            self.m[0].neg(),
            self.m[1].neg(),
            self.m[2].neg(),
            self.m[3].neg(),
            self.m[4].neg(),
            self.m[5].neg(),
            self.m[6].neg(),
            self.m[7].neg(),
            self.m[8].neg(),
        )
    }
}

impl vstd::std_specs::ops::NegSpecImpl for Mat3 {
    open spec fn obeys_neg_spec() -> bool {
        true
    }

    open spec fn neg_req(self) -> bool {
        true
    }

    open spec fn neg_spec(self) -> Mat3 {
        mat3_of(dec_neg(self.m[0]), dec_neg(self.m[1]), dec_neg(self.m[2]), dec_neg(self.m[3]), dec_neg(self.m[4]), dec_neg(self.m[5]), dec_neg(self.m[6]), dec_neg(self.m[7]), dec_neg(self.m[8]))
    }
}

} // verus!
