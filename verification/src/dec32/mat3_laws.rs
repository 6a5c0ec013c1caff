//! The inverse of a 3x3 fixed-point matrix, checked against the product: on matrices
//! whose entries and inverse are small integers, `m * inverse(m)` and `inverse(m) * m`
//! are both the identity.
use vstd::prelude::*;

use super::dec32::{dec_add, dec_div, dec_mul, dec_neg, dec_sub, iabs, tdiv, Dec32, ONE_RAW};
use super::mat3::{mat3_adj_spec, mat3_det_spec, mat3_inverse_spec, mat3_mul_spec, mat3_of, Mat3};

verus! {

/// `d` holds the integer `k` exactly.
pub open spec fn holds_int(d: Dec32, k: int) -> bool {
    d.0 == k * 65536
}

/// Every entry of `m` is a whole number between -16 and 16.
pub open spec fn mat3_small_integers(m: Mat3) -> bool {
    forall|i: int| 0 <= i < 9 ==> #[trigger] m.m[i].0 % 65536 == 0 && -1048576 <= m.m[i].0 <= 1048576
}

/// The identity matrix.
pub open spec fn mat3_identity_spec() -> Mat3 {
    mat3_of(
        Dec32(ONE_RAW),
        Dec32(0i32),
        Dec32(0i32),
        Dec32(0i32),
        Dec32(ONE_RAW),
        Dec32(0i32),
        Dec32(0i32),
        Dec32(0i32),
        Dec32(ONE_RAW),
    )
}

/// A product of two bounded integers is bounded by the product of the bounds.
proof fn lemma_mul_bound(x: int, y: int, bx: int, by: int)
    requires
        -bx <= x <= bx,
        -by <= y <= by,
    ensures
        -(bx * by) <= x * y <= bx * by,
{
    assert(-(bx * by) <= x * y <= bx * by) by (nonlinear_arith)
        requires
            -bx <= x <= bx,
            -by <= y <= by,
    ;
}

/// The fixed-point product of two whole numbers is exact while it stays in range.
proof fn lemma_int_mul(a: Dec32, b: Dec32, ka: int, kb: int)
    requires
        holds_int(a, ka),
        holds_int(b, kb),
        -32768 < ka * kb < 32768,
    ensures
        holds_int(dec_mul(a, b), ka * kb),
{
    let p = ka * kb;
    assert(a.0 * b.0 == (p * 65536) * 65536) by (nonlinear_arith)
        requires
            a.0 == ka * 65536,
            b.0 == kb * 65536,
            p == ka * kb,
    ;
    assert(((p * 65536) * 65536) / 65536 == p * 65536) by (nonlinear_arith);
}

/// The fixed-point sum of two whole numbers is exact while it stays in range.
proof fn lemma_int_add(a: Dec32, b: Dec32, ka: int, kb: int)
    requires
        holds_int(a, ka),
        holds_int(b, kb),
        -32768 < ka + kb < 32768,
    ensures
        holds_int(dec_add(a, b), ka + kb),
{
}

/// The fixed-point difference of two whole numbers is exact while it stays in range.
proof fn lemma_int_sub(a: Dec32, b: Dec32, ka: int, kb: int)
    requires
        holds_int(a, ka),
        holds_int(b, kb),
        -32768 < ka - kb < 32768,
    ensures
        holds_int(dec_sub(a, b), ka - kb),
{
}

/// The fixed-point negation of a whole number is exact while it stays in range.
proof fn lemma_int_neg(a: Dec32, ka: int)
    requires
        holds_int(a, ka),
        -32768 < ka < 32768,
    ensures
        holds_int(dec_neg(a), -ka),
{
}

/// A three-term dot product of whole numbers is exact while each product and the sum
/// stay in range.
proof fn lemma_int_dot3(
    a0: Dec32, a1: Dec32, a2: Dec32, b0: Dec32, b1: Dec32, b2: Dec32,
    x0: int, x1: int, x2: int, y0: int, y1: int, y2: int, bx: int, by: int,
)
    requires
        holds_int(a0, x0),
        holds_int(a1, x1),
        holds_int(a2, x2),
        holds_int(b0, y0),
        holds_int(b1, y1),
        holds_int(b2, y2),
        -bx <= x0 <= bx,
        -bx <= x1 <= bx,
        -bx <= x2 <= bx,
        -by <= y0 <= by,
        -by <= y1 <= by,
        -by <= y2 <= by,
        bx * by <= 8192,
    ensures
        holds_int(
            dec_add(dec_add(dec_mul(a0, b0), dec_mul(a1, b1)), dec_mul(a2, b2)),
            x0 * y0 + x1 * y1 + x2 * y2,
        ),
{
    lemma_mul_bound(x0, y0, bx, by);
    lemma_mul_bound(x1, y1, bx, by);
    lemma_mul_bound(x2, y2, bx, by);
    lemma_int_mul(a0, b0, x0, y0);
    lemma_int_mul(a1, b1, x1, y1);
    lemma_int_mul(a2, b2, x2, y2);
    lemma_int_add(dec_mul(a0, b0), dec_mul(a1, b1), x0 * y0, x1 * y1);
    lemma_int_add(dec_add(dec_mul(a0, b0), dec_mul(a1, b1)), dec_mul(a2, b2), x0 * y0 + x1 * y1, x2 * y2);
}

/// One over a determinant of one or minus one is that same value.
proof fn lemma_unit_reciprocal(det: Dec32, d: int)
    requires
        holds_int(det, d),
        d == 1 || d == -1,
    ensures
        holds_int(dec_div(Dec32(ONE_RAW), det), d),
{
    let n: int = 4294967296;
    assert(ONE_RAW * 65536 == n);
    assert(iabs(n) == n);
    assert(iabs(det.0 as int) == 65536);
    assert(n / 65536 == 65536) by (nonlinear_arith)
        requires
            n == 4294967296,
    ;
    assert(tdiv(n, det.0 as int) == d * 65536);
}

/// Expanding along a row by the cofactors of another row gives zero; along its own, the determinant.
proof fn lemma_cofactor_rows(k0: int, k1: int, k2: int, k3: int, k4: int, k5: int, k6: int, k7: int, k8: int)
    ensures
        k0 * (k4 * k8 - k5 * k7) + k3 * -(k1 * k8 - k2 * k7) + k6 * (k1 * k5 - k2 * k4) == (k0 * k4 * k8 + k1 * k5 * k6 + k2 * k3 * k7 - k2 * k4 * k6 - k0 * k5 * k7 - k1 * k3 * k8),
        k0 * -(k3 * k8 - k5 * k6) + k3 * (k0 * k8 - k2 * k6) + k6 * -(k0 * k5 - k2 * k3) == 0,
        k0 * (k3 * k7 - k4 * k6) + k3 * -(k0 * k7 - k1 * k6) + k6 * (k0 * k4 - k1 * k3) == 0,
        k1 * (k4 * k8 - k5 * k7) + k4 * -(k1 * k8 - k2 * k7) + k7 * (k1 * k5 - k2 * k4) == 0,
        k1 * -(k3 * k8 - k5 * k6) + k4 * (k0 * k8 - k2 * k6) + k7 * -(k0 * k5 - k2 * k3) == (k0 * k4 * k8 + k1 * k5 * k6 + k2 * k3 * k7 - k2 * k4 * k6 - k0 * k5 * k7 - k1 * k3 * k8),
        k1 * (k3 * k7 - k4 * k6) + k4 * -(k0 * k7 - k1 * k6) + k7 * (k0 * k4 - k1 * k3) == 0,
        k2 * (k4 * k8 - k5 * k7) + k5 * -(k1 * k8 - k2 * k7) + k8 * (k1 * k5 - k2 * k4) == 0,
        k2 * -(k3 * k8 - k5 * k6) + k5 * (k0 * k8 - k2 * k6) + k8 * -(k0 * k5 - k2 * k3) == 0,
        k2 * (k3 * k7 - k4 * k6) + k5 * -(k0 * k7 - k1 * k6) + k8 * (k0 * k4 - k1 * k3) == (k0 * k4 * k8 + k1 * k5 * k6 + k2 * k3 * k7 - k2 * k4 * k6 - k0 * k5 * k7 - k1 * k3 * k8),
{
    assert(k0 * (k4 * k8 - k5 * k7) == k0 * k4 * k8 - k0 * k5 * k7) by (nonlinear_arith);
    assert(k3 * -(k1 * k8 - k2 * k7) == k2 * k3 * k7 - k1 * k3 * k8) by (nonlinear_arith);
    assert(k6 * (k1 * k5 - k2 * k4) == k1 * k5 * k6 - k2 * k4 * k6) by (nonlinear_arith);
    assert(k0 * -(k3 * k8 - k5 * k6) == k0 * k5 * k6 - k0 * k3 * k8) by (nonlinear_arith);
    assert(k3 * (k0 * k8 - k2 * k6) == k0 * k3 * k8 - k2 * k3 * k6) by (nonlinear_arith);
    assert(k6 * -(k0 * k5 - k2 * k3) == k2 * k3 * k6 - k0 * k5 * k6) by (nonlinear_arith);
    assert(k0 * (k3 * k7 - k4 * k6) == k0 * k3 * k7 - k0 * k4 * k6) by (nonlinear_arith);
    assert(k3 * -(k0 * k7 - k1 * k6) == k1 * k3 * k6 - k0 * k3 * k7) by (nonlinear_arith);
    assert(k6 * (k0 * k4 - k1 * k3) == k0 * k4 * k6 - k1 * k3 * k6) by (nonlinear_arith);
    assert(k1 * (k4 * k8 - k5 * k7) == k1 * k4 * k8 - k1 * k5 * k7) by (nonlinear_arith);
    assert(k4 * -(k1 * k8 - k2 * k7) == k2 * k4 * k7 - k1 * k4 * k8) by (nonlinear_arith);
    assert(k7 * (k1 * k5 - k2 * k4) == k1 * k5 * k7 - k2 * k4 * k7) by (nonlinear_arith);
    assert(k1 * -(k3 * k8 - k5 * k6) == k1 * k5 * k6 - k1 * k3 * k8) by (nonlinear_arith);
    assert(k4 * (k0 * k8 - k2 * k6) == k0 * k4 * k8 - k2 * k4 * k6) by (nonlinear_arith);
    assert(k7 * -(k0 * k5 - k2 * k3) == k2 * k3 * k7 - k0 * k5 * k7) by (nonlinear_arith);
    assert(k1 * (k3 * k7 - k4 * k6) == k1 * k3 * k7 - k1 * k4 * k6) by (nonlinear_arith);
    assert(k4 * -(k0 * k7 - k1 * k6) == k1 * k4 * k6 - k0 * k4 * k7) by (nonlinear_arith);
    assert(k7 * (k0 * k4 - k1 * k3) == k0 * k4 * k7 - k1 * k3 * k7) by (nonlinear_arith);
    assert(k2 * (k4 * k8 - k5 * k7) == k2 * k4 * k8 - k2 * k5 * k7) by (nonlinear_arith);
    assert(k5 * -(k1 * k8 - k2 * k7) == k2 * k5 * k7 - k1 * k5 * k8) by (nonlinear_arith);
    assert(k8 * (k1 * k5 - k2 * k4) == k1 * k5 * k8 - k2 * k4 * k8) by (nonlinear_arith);
    assert(k2 * -(k3 * k8 - k5 * k6) == k2 * k5 * k6 - k2 * k3 * k8) by (nonlinear_arith);
    assert(k5 * (k0 * k8 - k2 * k6) == k0 * k5 * k8 - k2 * k5 * k6) by (nonlinear_arith);
    assert(k8 * -(k0 * k5 - k2 * k3) == k2 * k3 * k8 - k0 * k5 * k8) by (nonlinear_arith);
    assert(k2 * (k3 * k7 - k4 * k6) == k2 * k3 * k7 - k2 * k4 * k6) by (nonlinear_arith);
    assert(k5 * -(k0 * k7 - k1 * k6) == k1 * k5 * k6 - k0 * k5 * k7) by (nonlinear_arith);
    assert(k8 * (k0 * k4 - k1 * k3) == k0 * k4 * k8 - k1 * k3 * k8) by (nonlinear_arith);
}

/// The same expansion by columns: the adjugate times the matrix is the determinant times the identity.
proof fn lemma_cofactor_cols(k0: int, k1: int, k2: int, k3: int, k4: int, k5: int, k6: int, k7: int, k8: int)
    ensures
        (k4 * k8 - k5 * k7) * k0 + -(k3 * k8 - k5 * k6) * k1 + (k3 * k7 - k4 * k6) * k2 == (k0 * k4 * k8 + k1 * k5 * k6 + k2 * k3 * k7 - k2 * k4 * k6 - k0 * k5 * k7 - k1 * k3 * k8),
        (k4 * k8 - k5 * k7) * k3 + -(k3 * k8 - k5 * k6) * k4 + (k3 * k7 - k4 * k6) * k5 == 0,
        (k4 * k8 - k5 * k7) * k6 + -(k3 * k8 - k5 * k6) * k7 + (k3 * k7 - k4 * k6) * k8 == 0,
        -(k1 * k8 - k2 * k7) * k0 + (k0 * k8 - k2 * k6) * k1 + -(k0 * k7 - k1 * k6) * k2 == 0,
        -(k1 * k8 - k2 * k7) * k3 + (k0 * k8 - k2 * k6) * k4 + -(k0 * k7 - k1 * k6) * k5 == (k0 * k4 * k8 + k1 * k5 * k6 + k2 * k3 * k7 - k2 * k4 * k6 - k0 * k5 * k7 - k1 * k3 * k8),
        -(k1 * k8 - k2 * k7) * k6 + (k0 * k8 - k2 * k6) * k7 + -(k0 * k7 - k1 * k6) * k8 == 0,
        (k1 * k5 - k2 * k4) * k0 + -(k0 * k5 - k2 * k3) * k1 + (k0 * k4 - k1 * k3) * k2 == 0,
        (k1 * k5 - k2 * k4) * k3 + -(k0 * k5 - k2 * k3) * k4 + (k0 * k4 - k1 * k3) * k5 == 0,
        (k1 * k5 - k2 * k4) * k6 + -(k0 * k5 - k2 * k3) * k7 + (k0 * k4 - k1 * k3) * k8 == (k0 * k4 * k8 + k1 * k5 * k6 + k2 * k3 * k7 - k2 * k4 * k6 - k0 * k5 * k7 - k1 * k3 * k8),
{
    assert((k4 * k8 - k5 * k7) * k0 == k0 * k4 * k8 - k0 * k5 * k7) by (nonlinear_arith);
    assert(-(k3 * k8 - k5 * k6) * k1 == k1 * k5 * k6 - k1 * k3 * k8) by (nonlinear_arith);
    assert((k3 * k7 - k4 * k6) * k2 == k2 * k3 * k7 - k2 * k4 * k6) by (nonlinear_arith);
    assert((k4 * k8 - k5 * k7) * k3 == k3 * k4 * k8 - k3 * k5 * k7) by (nonlinear_arith);
    assert(-(k3 * k8 - k5 * k6) * k4 == k4 * k5 * k6 - k3 * k4 * k8) by (nonlinear_arith);
    assert((k3 * k7 - k4 * k6) * k5 == k3 * k5 * k7 - k4 * k5 * k6) by (nonlinear_arith);
    assert((k4 * k8 - k5 * k7) * k6 == k4 * k6 * k8 - k5 * k6 * k7) by (nonlinear_arith);
    assert(-(k3 * k8 - k5 * k6) * k7 == k5 * k6 * k7 - k3 * k7 * k8) by (nonlinear_arith);
    assert((k3 * k7 - k4 * k6) * k8 == k3 * k7 * k8 - k4 * k6 * k8) by (nonlinear_arith);
    assert(-(k1 * k8 - k2 * k7) * k0 == k0 * k2 * k7 - k0 * k1 * k8) by (nonlinear_arith);
    assert((k0 * k8 - k2 * k6) * k1 == k0 * k1 * k8 - k1 * k2 * k6) by (nonlinear_arith);
    assert(-(k0 * k7 - k1 * k6) * k2 == k1 * k2 * k6 - k0 * k2 * k7) by (nonlinear_arith);
    assert(-(k1 * k8 - k2 * k7) * k3 == k2 * k3 * k7 - k1 * k3 * k8) by (nonlinear_arith);
    assert((k0 * k8 - k2 * k6) * k4 == k0 * k4 * k8 - k2 * k4 * k6) by (nonlinear_arith);
    assert(-(k0 * k7 - k1 * k6) * k5 == k1 * k5 * k6 - k0 * k5 * k7) by (nonlinear_arith);
    assert(-(k1 * k8 - k2 * k7) * k6 == k2 * k6 * k7 - k1 * k6 * k8) by (nonlinear_arith);
    assert((k0 * k8 - k2 * k6) * k7 == k0 * k7 * k8 - k2 * k6 * k7) by (nonlinear_arith);
    assert(-(k0 * k7 - k1 * k6) * k8 == k1 * k6 * k8 - k0 * k7 * k8) by (nonlinear_arith);
    assert((k1 * k5 - k2 * k4) * k0 == k0 * k1 * k5 - k0 * k2 * k4) by (nonlinear_arith);
    assert(-(k0 * k5 - k2 * k3) * k1 == k1 * k2 * k3 - k0 * k1 * k5) by (nonlinear_arith);
    assert((k0 * k4 - k1 * k3) * k2 == k0 * k2 * k4 - k1 * k2 * k3) by (nonlinear_arith);
    assert((k1 * k5 - k2 * k4) * k3 == k1 * k3 * k5 - k2 * k3 * k4) by (nonlinear_arith);
    assert(-(k0 * k5 - k2 * k3) * k4 == k2 * k3 * k4 - k0 * k4 * k5) by (nonlinear_arith);
    assert((k0 * k4 - k1 * k3) * k5 == k0 * k4 * k5 - k1 * k3 * k5) by (nonlinear_arith);
    assert((k1 * k5 - k2 * k4) * k6 == k1 * k5 * k6 - k2 * k4 * k6) by (nonlinear_arith);
    assert(-(k0 * k5 - k2 * k3) * k7 == k2 * k3 * k7 - k0 * k5 * k7) by (nonlinear_arith);
    assert((k0 * k4 - k1 * k3) * k8 == k0 * k4 * k8 - k1 * k3 * k8) by (nonlinear_arith);
}
/// On a matrix of small whole numbers with determinant one or minus one, whose inverse
/// is then exact, `inverse` succeeds and its result multiplied by the matrix, on
/// either side, is the identity.
pub proof fn lemma_inverse_of_unimodular(m: Mat3)
    requires
        mat3_small_integers(m),
        mat3_det_spec(m).0 == ONE_RAW || mat3_det_spec(m).0 == -ONE_RAW,
    ensures
        mat3_inverse_spec(m) is Some,
        mat3_mul_spec(m, mat3_inverse_spec(m)->0) == mat3_identity_spec(),
        mat3_mul_spec(mat3_inverse_spec(m)->0, m) == mat3_identity_spec(),
{
    let k0 = (m.m[0].0 as int) / 65536;
    let k1 = (m.m[1].0 as int) / 65536;
    let k2 = (m.m[2].0 as int) / 65536;
    let k3 = (m.m[3].0 as int) / 65536;
    let k4 = (m.m[4].0 as int) / 65536;
    let k5 = (m.m[5].0 as int) / 65536;
    let k6 = (m.m[6].0 as int) / 65536;
    let k7 = (m.m[7].0 as int) / 65536;
    let k8 = (m.m[8].0 as int) / 65536;
    assert(holds_int(m.m[0], k0) && -16 <= k0 <= 16) by { assert(m.m[0].0 % 65536 == 0); }
    assert(holds_int(m.m[1], k1) && -16 <= k1 <= 16) by { assert(m.m[1].0 % 65536 == 0); }
    assert(holds_int(m.m[2], k2) && -16 <= k2 <= 16) by { assert(m.m[2].0 % 65536 == 0); }
    assert(holds_int(m.m[3], k3) && -16 <= k3 <= 16) by { assert(m.m[3].0 % 65536 == 0); }
    assert(holds_int(m.m[4], k4) && -16 <= k4 <= 16) by { assert(m.m[4].0 % 65536 == 0); }
    assert(holds_int(m.m[5], k5) && -16 <= k5 <= 16) by { assert(m.m[5].0 % 65536 == 0); }
    assert(holds_int(m.m[6], k6) && -16 <= k6 <= 16) by { assert(m.m[6].0 % 65536 == 0); }
    assert(holds_int(m.m[7], k7) && -16 <= k7 <= 16) by { assert(m.m[7].0 % 65536 == 0); }
    assert(holds_int(m.m[8], k8) && -16 <= k8 <= 16) by { assert(m.m[8].0 % 65536 == 0); }
    lemma_mul_bound(k0, k4, 16, 16);
    lemma_int_mul(m.m[0], m.m[4], k0, k4);
    lemma_mul_bound(k0 * k4, k8, 256, 16);
    lemma_int_mul(dec_mul(m.m[0], m.m[4]), m.m[8], k0 * k4, k8);
    let ta = dec_mul(dec_mul(m.m[0], m.m[4]), m.m[8]);
    let pa = k0 * k4 * k8;
    lemma_mul_bound(k1, k5, 16, 16);
    lemma_int_mul(m.m[1], m.m[5], k1, k5);
    lemma_mul_bound(k1 * k5, k6, 256, 16);
    lemma_int_mul(dec_mul(m.m[1], m.m[5]), m.m[6], k1 * k5, k6);
    let tb = dec_mul(dec_mul(m.m[1], m.m[5]), m.m[6]);
    let pb = k1 * k5 * k6;
    lemma_mul_bound(k2, k3, 16, 16);
    lemma_int_mul(m.m[2], m.m[3], k2, k3);
    lemma_mul_bound(k2 * k3, k7, 256, 16);
    lemma_int_mul(dec_mul(m.m[2], m.m[3]), m.m[7], k2 * k3, k7);
    let tc = dec_mul(dec_mul(m.m[2], m.m[3]), m.m[7]);
    let pc = k2 * k3 * k7;
    lemma_mul_bound(k2, k4, 16, 16);
    lemma_int_mul(m.m[2], m.m[4], k2, k4);
    lemma_mul_bound(k2 * k4, k6, 256, 16);
    lemma_int_mul(dec_mul(m.m[2], m.m[4]), m.m[6], k2 * k4, k6);
    let td = dec_mul(dec_mul(m.m[2], m.m[4]), m.m[6]);
    let pd = k2 * k4 * k6;
    lemma_mul_bound(k0, k5, 16, 16);
    lemma_int_mul(m.m[0], m.m[5], k0, k5);
    lemma_mul_bound(k0 * k5, k7, 256, 16);
    lemma_int_mul(dec_mul(m.m[0], m.m[5]), m.m[7], k0 * k5, k7);
    let te = dec_mul(dec_mul(m.m[0], m.m[5]), m.m[7]);
    let pe = k0 * k5 * k7;
    lemma_mul_bound(k1, k3, 16, 16);
    lemma_int_mul(m.m[1], m.m[3], k1, k3);
    lemma_mul_bound(k1 * k3, k8, 256, 16);
    lemma_int_mul(dec_mul(m.m[1], m.m[3]), m.m[8], k1 * k3, k8);
    let tf = dec_mul(dec_mul(m.m[1], m.m[3]), m.m[8]);
    let pf = k1 * k3 * k8;
    lemma_int_add(ta, tb, pa, pb);
    lemma_int_add(dec_add(ta, tb), tc, pa + pb, pc);
    lemma_int_add(td, te, pd, pe);
    lemma_int_add(dec_add(td, te), tf, pd + pe, pf);
    lemma_int_sub(dec_add(dec_add(ta, tb), tc), dec_add(dec_add(td, te), tf), pa + pb + pc, pd + pe + pf);
    let d = pa + pb + pc - (pd + pe + pf);
    let det = mat3_det_spec(m);
    assert(holds_int(det, d));
    assert(d == 1 || d == -1);
    assert(d * d == 1) by (nonlinear_arith) requires d == 1 || d == -1;
    lemma_unit_reciprocal(det, d);
    let inv_det = dec_div(Dec32(ONE_RAW), det);
    lemma_mul_bound(k4, k8, 16, 16);
    lemma_int_mul(m.m[4], m.m[8], k4, k8);
    lemma_mul_bound(k5, k7, 16, 16);
    lemma_int_mul(m.m[5], m.m[7], k5, k7);
    lemma_int_sub(dec_mul(m.m[4], m.m[8]), dec_mul(m.m[5], m.m[7]), k4 * k8, k5 * k7);
    let a0 = (k4 * k8 - k5 * k7);
    assert(holds_int(mat3_adj_spec(m, 0), a0));
    lemma_mul_bound(a0, d, 512, 1);
    lemma_int_mul(mat3_adj_spec(m, 0), inv_det, a0, d);
    let e0 = a0 * d;
    lemma_mul_bound(k1, k8, 16, 16);
    lemma_int_mul(m.m[1], m.m[8], k1, k8);
    lemma_mul_bound(k2, k7, 16, 16);
    lemma_int_mul(m.m[2], m.m[7], k2, k7);
    lemma_int_sub(dec_mul(m.m[1], m.m[8]), dec_mul(m.m[2], m.m[7]), k1 * k8, k2 * k7);
    lemma_int_neg(dec_sub(dec_mul(m.m[1], m.m[8]), dec_mul(m.m[2], m.m[7])), k1 * k8 - k2 * k7);
    let a1 = -(k1 * k8 - k2 * k7);
    assert(holds_int(mat3_adj_spec(m, 1), a1));
    lemma_mul_bound(a1, d, 512, 1);
    lemma_int_mul(mat3_adj_spec(m, 1), inv_det, a1, d);
    let e1 = a1 * d;
    lemma_mul_bound(k1, k5, 16, 16);
    lemma_int_mul(m.m[1], m.m[5], k1, k5);
    lemma_mul_bound(k2, k4, 16, 16);
    lemma_int_mul(m.m[2], m.m[4], k2, k4);
    lemma_int_sub(dec_mul(m.m[1], m.m[5]), dec_mul(m.m[2], m.m[4]), k1 * k5, k2 * k4);
    let a2 = (k1 * k5 - k2 * k4);
    assert(holds_int(mat3_adj_spec(m, 2), a2));
    lemma_mul_bound(a2, d, 512, 1);
    lemma_int_mul(mat3_adj_spec(m, 2), inv_det, a2, d);
    let e2 = a2 * d;
    lemma_mul_bound(k3, k8, 16, 16);
    lemma_int_mul(m.m[3], m.m[8], k3, k8);
    lemma_mul_bound(k5, k6, 16, 16);
    lemma_int_mul(m.m[5], m.m[6], k5, k6);
    lemma_int_sub(dec_mul(m.m[3], m.m[8]), dec_mul(m.m[5], m.m[6]), k3 * k8, k5 * k6);
    lemma_int_neg(dec_sub(dec_mul(m.m[3], m.m[8]), dec_mul(m.m[5], m.m[6])), k3 * k8 - k5 * k6);
    let a3 = -(k3 * k8 - k5 * k6);
    assert(holds_int(mat3_adj_spec(m, 3), a3));
    lemma_mul_bound(a3, d, 512, 1);
    lemma_int_mul(mat3_adj_spec(m, 3), inv_det, a3, d);
    let e3 = a3 * d;
    lemma_mul_bound(k0, k8, 16, 16);
    lemma_int_mul(m.m[0], m.m[8], k0, k8);
    lemma_mul_bound(k2, k6, 16, 16);
    lemma_int_mul(m.m[2], m.m[6], k2, k6);
    lemma_int_sub(dec_mul(m.m[0], m.m[8]), dec_mul(m.m[2], m.m[6]), k0 * k8, k2 * k6);
    let a4 = (k0 * k8 - k2 * k6);
    assert(holds_int(mat3_adj_spec(m, 4), a4));
    lemma_mul_bound(a4, d, 512, 1);
    lemma_int_mul(mat3_adj_spec(m, 4), inv_det, a4, d);
    let e4 = a4 * d;
    lemma_mul_bound(k0, k5, 16, 16);
    lemma_int_mul(m.m[0], m.m[5], k0, k5);
    lemma_mul_bound(k2, k3, 16, 16);
    lemma_int_mul(m.m[2], m.m[3], k2, k3);
    lemma_int_sub(dec_mul(m.m[0], m.m[5]), dec_mul(m.m[2], m.m[3]), k0 * k5, k2 * k3);
    lemma_int_neg(dec_sub(dec_mul(m.m[0], m.m[5]), dec_mul(m.m[2], m.m[3])), k0 * k5 - k2 * k3);
    let a5 = -(k0 * k5 - k2 * k3);
    assert(holds_int(mat3_adj_spec(m, 5), a5));
    lemma_mul_bound(a5, d, 512, 1);
    lemma_int_mul(mat3_adj_spec(m, 5), inv_det, a5, d);
    let e5 = a5 * d;
    lemma_mul_bound(k3, k7, 16, 16);
    lemma_int_mul(m.m[3], m.m[7], k3, k7);
    lemma_mul_bound(k4, k6, 16, 16);
    lemma_int_mul(m.m[4], m.m[6], k4, k6);
    lemma_int_sub(dec_mul(m.m[3], m.m[7]), dec_mul(m.m[4], m.m[6]), k3 * k7, k4 * k6);
    let a6 = (k3 * k7 - k4 * k6);
    assert(holds_int(mat3_adj_spec(m, 6), a6));
    lemma_mul_bound(a6, d, 512, 1);
    lemma_int_mul(mat3_adj_spec(m, 6), inv_det, a6, d);
    let e6 = a6 * d;
    lemma_mul_bound(k0, k7, 16, 16);
    lemma_int_mul(m.m[0], m.m[7], k0, k7);
    lemma_mul_bound(k1, k6, 16, 16);
    lemma_int_mul(m.m[1], m.m[6], k1, k6);
    lemma_int_sub(dec_mul(m.m[0], m.m[7]), dec_mul(m.m[1], m.m[6]), k0 * k7, k1 * k6);
    lemma_int_neg(dec_sub(dec_mul(m.m[0], m.m[7]), dec_mul(m.m[1], m.m[6])), k0 * k7 - k1 * k6);
    let a7 = -(k0 * k7 - k1 * k6);
    assert(holds_int(mat3_adj_spec(m, 7), a7));
    lemma_mul_bound(a7, d, 512, 1);
    lemma_int_mul(mat3_adj_spec(m, 7), inv_det, a7, d);
    let e7 = a7 * d;
    lemma_mul_bound(k0, k4, 16, 16);
    lemma_int_mul(m.m[0], m.m[4], k0, k4);
    lemma_mul_bound(k1, k3, 16, 16);
    lemma_int_mul(m.m[1], m.m[3], k1, k3);
    lemma_int_sub(dec_mul(m.m[0], m.m[4]), dec_mul(m.m[1], m.m[3]), k0 * k4, k1 * k3);
    let a8 = (k0 * k4 - k1 * k3);
    assert(holds_int(mat3_adj_spec(m, 8), a8));
    lemma_mul_bound(a8, d, 512, 1);
    lemma_int_mul(mat3_adj_spec(m, 8), inv_det, a8, d);
    let e8 = a8 * d;
    let inv = mat3_inverse_spec(m)->0;
    assert(holds_int(inv.m[0], e0));
    assert(holds_int(inv.m[1], e1));
    assert(holds_int(inv.m[2], e2));
    assert(holds_int(inv.m[3], e3));
    assert(holds_int(inv.m[4], e4));
    assert(holds_int(inv.m[5], e5));
    assert(holds_int(inv.m[6], e6));
    assert(holds_int(inv.m[7], e7));
    assert(holds_int(inv.m[8], e8));
    lemma_cofactor_rows(k0, k1, k2, k3, k4, k5, k6, k7, k8);
    lemma_cofactor_cols(k0, k1, k2, k3, k4, k5, k6, k7, k8);
    lemma_int_dot3(m.m[0], m.m[3], m.m[6], inv.m[0], inv.m[1], inv.m[2], k0, k3, k6, e0, e1, e2, 16, 512);
    assert(k0 * e0 + k3 * e1 + k6 * e2 == 1) by (nonlinear_arith)
        requires
            e0 == a0 * d, e1 == a1 * d, e2 == a2 * d,
            k0 * a0 + k3 * a1 + k6 * a2 == d,
            d * d == 1,
    ;
    lemma_int_dot3(m.m[0], m.m[3], m.m[6], inv.m[3], inv.m[4], inv.m[5], k0, k3, k6, e3, e4, e5, 16, 512);
    assert(k0 * e3 + k3 * e4 + k6 * e5 == 0) by (nonlinear_arith)
        requires
            e3 == a3 * d, e4 == a4 * d, e5 == a5 * d,
            k0 * a3 + k3 * a4 + k6 * a5 == 0,
            d * d == 1,
    ;
    lemma_int_dot3(m.m[0], m.m[3], m.m[6], inv.m[6], inv.m[7], inv.m[8], k0, k3, k6, e6, e7, e8, 16, 512);
    assert(k0 * e6 + k3 * e7 + k6 * e8 == 0) by (nonlinear_arith)
        requires
            e6 == a6 * d, e7 == a7 * d, e8 == a8 * d,
            k0 * a6 + k3 * a7 + k6 * a8 == 0,
            d * d == 1,
    ;
    lemma_int_dot3(m.m[1], m.m[4], m.m[7], inv.m[0], inv.m[1], inv.m[2], k1, k4, k7, e0, e1, e2, 16, 512);
    assert(k1 * e0 + k4 * e1 + k7 * e2 == 0) by (nonlinear_arith)
        requires
            e0 == a0 * d, e1 == a1 * d, e2 == a2 * d,
            k1 * a0 + k4 * a1 + k7 * a2 == 0,
            d * d == 1,
    ;
    lemma_int_dot3(m.m[1], m.m[4], m.m[7], inv.m[3], inv.m[4], inv.m[5], k1, k4, k7, e3, e4, e5, 16, 512);
    assert(k1 * e3 + k4 * e4 + k7 * e5 == 1) by (nonlinear_arith)
        requires
            e3 == a3 * d, e4 == a4 * d, e5 == a5 * d,
            k1 * a3 + k4 * a4 + k7 * a5 == d,
            d * d == 1,
    ;
    lemma_int_dot3(m.m[1], m.m[4], m.m[7], inv.m[6], inv.m[7], inv.m[8], k1, k4, k7, e6, e7, e8, 16, 512);
    assert(k1 * e6 + k4 * e7 + k7 * e8 == 0) by (nonlinear_arith)
        requires
            e6 == a6 * d, e7 == a7 * d, e8 == a8 * d,
            k1 * a6 + k4 * a7 + k7 * a8 == 0,
            d * d == 1,
    ;
    lemma_int_dot3(m.m[2], m.m[5], m.m[8], inv.m[0], inv.m[1], inv.m[2], k2, k5, k8, e0, e1, e2, 16, 512);
    assert(k2 * e0 + k5 * e1 + k8 * e2 == 0) by (nonlinear_arith)
        requires
            e0 == a0 * d, e1 == a1 * d, e2 == a2 * d,
            k2 * a0 + k5 * a1 + k8 * a2 == 0,
            d * d == 1,
    ;
    lemma_int_dot3(m.m[2], m.m[5], m.m[8], inv.m[3], inv.m[4], inv.m[5], k2, k5, k8, e3, e4, e5, 16, 512);
    assert(k2 * e3 + k5 * e4 + k8 * e5 == 0) by (nonlinear_arith)
        requires
            e3 == a3 * d, e4 == a4 * d, e5 == a5 * d,
            k2 * a3 + k5 * a4 + k8 * a5 == 0,
            d * d == 1,
    ;
    lemma_int_dot3(m.m[2], m.m[5], m.m[8], inv.m[6], inv.m[7], inv.m[8], k2, k5, k8, e6, e7, e8, 16, 512);
    assert(k2 * e6 + k5 * e7 + k8 * e8 == 1) by (nonlinear_arith)
        requires
            e6 == a6 * d, e7 == a7 * d, e8 == a8 * d,
            k2 * a6 + k5 * a7 + k8 * a8 == d,
            d * d == 1,
    ;
    assert(mat3_mul_spec(m, inv).m[0] == Dec32(ONE_RAW));
    assert(mat3_mul_spec(m, inv).m[1] == Dec32(0i32));
    assert(mat3_mul_spec(m, inv).m[2] == Dec32(0i32));
    assert(mat3_mul_spec(m, inv).m[3] == Dec32(0i32));
    assert(mat3_mul_spec(m, inv).m[4] == Dec32(ONE_RAW));
    assert(mat3_mul_spec(m, inv).m[5] == Dec32(0i32));
    assert(mat3_mul_spec(m, inv).m[6] == Dec32(0i32));
    assert(mat3_mul_spec(m, inv).m[7] == Dec32(0i32));
    assert(mat3_mul_spec(m, inv).m[8] == Dec32(ONE_RAW));
    lemma_int_dot3(inv.m[0], inv.m[3], inv.m[6], m.m[0], m.m[1], m.m[2], e0, e3, e6, k0, k1, k2, 512, 16);
    assert(e0 * k0 + e3 * k1 + e6 * k2 == 1) by (nonlinear_arith)
        requires
            e0 == a0 * d, e3 == a3 * d, e6 == a6 * d,
            a0 * k0 + a3 * k1 + a6 * k2 == d,
            d * d == 1,
    ;
    lemma_int_dot3(inv.m[0], inv.m[3], inv.m[6], m.m[3], m.m[4], m.m[5], e0, e3, e6, k3, k4, k5, 512, 16);
    assert(e0 * k3 + e3 * k4 + e6 * k5 == 0) by (nonlinear_arith)
        requires
            e0 == a0 * d, e3 == a3 * d, e6 == a6 * d,
            a0 * k3 + a3 * k4 + a6 * k5 == 0,
            d * d == 1,
    ;
    lemma_int_dot3(inv.m[0], inv.m[3], inv.m[6], m.m[6], m.m[7], m.m[8], e0, e3, e6, k6, k7, k8, 512, 16);
    assert(e0 * k6 + e3 * k7 + e6 * k8 == 0) by (nonlinear_arith)
        requires
            e0 == a0 * d, e3 == a3 * d, e6 == a6 * d,
            a0 * k6 + a3 * k7 + a6 * k8 == 0,
            d * d == 1,
    ;
    lemma_int_dot3(inv.m[1], inv.m[4], inv.m[7], m.m[0], m.m[1], m.m[2], e1, e4, e7, k0, k1, k2, 512, 16);
    assert(e1 * k0 + e4 * k1 + e7 * k2 == 0) by (nonlinear_arith)
        requires
            e1 == a1 * d, e4 == a4 * d, e7 == a7 * d,
            a1 * k0 + a4 * k1 + a7 * k2 == 0,
            d * d == 1,
    ;
    lemma_int_dot3(inv.m[1], inv.m[4], inv.m[7], m.m[3], m.m[4], m.m[5], e1, e4, e7, k3, k4, k5, 512, 16);
    assert(e1 * k3 + e4 * k4 + e7 * k5 == 1) by (nonlinear_arith)
        requires
            e1 == a1 * d, e4 == a4 * d, e7 == a7 * d,
            a1 * k3 + a4 * k4 + a7 * k5 == d,
            d * d == 1,
    ;
    lemma_int_dot3(inv.m[1], inv.m[4], inv.m[7], m.m[6], m.m[7], m.m[8], e1, e4, e7, k6, k7, k8, 512, 16);
    assert(e1 * k6 + e4 * k7 + e7 * k8 == 0) by (nonlinear_arith)
        requires
            e1 == a1 * d, e4 == a4 * d, e7 == a7 * d,
            a1 * k6 + a4 * k7 + a7 * k8 == 0,
            d * d == 1,
    ;
    lemma_int_dot3(inv.m[2], inv.m[5], inv.m[8], m.m[0], m.m[1], m.m[2], e2, e5, e8, k0, k1, k2, 512, 16);
    assert(e2 * k0 + e5 * k1 + e8 * k2 == 0) by (nonlinear_arith)
        requires
            e2 == a2 * d, e5 == a5 * d, e8 == a8 * d,
            a2 * k0 + a5 * k1 + a8 * k2 == 0,
            d * d == 1,
    ;
    lemma_int_dot3(inv.m[2], inv.m[5], inv.m[8], m.m[3], m.m[4], m.m[5], e2, e5, e8, k3, k4, k5, 512, 16);
    assert(e2 * k3 + e5 * k4 + e8 * k5 == 0) by (nonlinear_arith)
        requires
            e2 == a2 * d, e5 == a5 * d, e8 == a8 * d,
            a2 * k3 + a5 * k4 + a8 * k5 == 0,
            d * d == 1,
    ;
    lemma_int_dot3(inv.m[2], inv.m[5], inv.m[8], m.m[6], m.m[7], m.m[8], e2, e5, e8, k6, k7, k8, 512, 16);
    assert(e2 * k6 + e5 * k7 + e8 * k8 == 1) by (nonlinear_arith)
        requires
            e2 == a2 * d, e5 == a5 * d, e8 == a8 * d,
            a2 * k6 + a5 * k7 + a8 * k8 == d,
            d * d == 1,
    ;
    assert(mat3_mul_spec(inv, m).m[0] == Dec32(ONE_RAW));
    assert(mat3_mul_spec(inv, m).m[1] == Dec32(0i32));
    assert(mat3_mul_spec(inv, m).m[2] == Dec32(0i32));
    assert(mat3_mul_spec(inv, m).m[3] == Dec32(0i32));
    assert(mat3_mul_spec(inv, m).m[4] == Dec32(ONE_RAW));
    assert(mat3_mul_spec(inv, m).m[5] == Dec32(0i32));
    assert(mat3_mul_spec(inv, m).m[6] == Dec32(0i32));
    assert(mat3_mul_spec(inv, m).m[7] == Dec32(0i32));
    assert(mat3_mul_spec(inv, m).m[8] == Dec32(ONE_RAW));
}

} // verus!
