//! Range and quadrant laws of the fixed-point arctangent.
use vstd::prelude::*;

use super::advanced::{atan2_spec, atan_approx_spec, atan_spec, half_pi_spec};
use super::dec32::{dec_add, dec_div, dec_mul, dec_neg, iabs, tdiv, Dec32, ONE_RAW, PI_RAW};

verus! {

/// Multiplying by a fraction of at most one (`q / 65536` with `0 <= q <= 65536`)
/// keeps a value between itself and zero.
proof fn lemma_scale_toward_zero(p: int, q: int)
    requires
        -65536 <= p <= 65536,
        0 <= q <= 65536,
    ensures
        p >= 0 ==> 0 <= (p * q) / 65536 <= p,
        p < 0 ==> p <= (p * q) / 65536 <= 0,
        (p * q) / 65536 == (q * p) / 65536,
{
    assert(p * q == q * p) by (nonlinear_arith);
    if p >= 0 {
        assert(0 <= p * q <= p * 65536) by (nonlinear_arith)
            requires
                0 <= p,
                0 <= q <= 65536,
        ;
    } else {
        assert(p * 65536 <= p * q <= 0) by (nonlinear_arith)
            requires
                p < 0,
                0 <= q <= 65536,
        ;
    }
}

/// Dividing `a` (as a fixed-point number) by the small integer `k` rounds toward zero.
proof fn lemma_div_small(a: int, k: int)
    requires
        1 <= k <= 7,
        -65536 <= a <= 65536,
    ensures
        a >= 0 ==> 0 <= tdiv(a * 65536, k * 65536) && k * tdiv(a * 65536, k * 65536) <= a
            && a < k * tdiv(a * 65536, k * 65536) + k,
        a < 0 ==> tdiv(a * 65536, k * 65536) <= 0 && k * tdiv(a * 65536, k * 65536) >= a
            && a > k * tdiv(a * 65536, k * 65536) - k,
{
    let n = iabs(a);
    let q = (n * 65536) / (k * 65536);
    assert(iabs(a * 65536) == n * 65536);
    assert(iabs(k * 65536) == k * 65536);
    assert(k * q <= n < k * q + k) by (nonlinear_arith)
        requires
            q == (n * 65536) / (k * 65536),
            n >= 0,
            k >= 1,
    {
        assert(n * 65536 == (k * 65536) * q + (n * 65536) % (k * 65536));
        assert(0 <= (n * 65536) % (k * 65536) < k * 65536);
        assert(k * 65536 * q <= n * 65536);
        assert(n * 65536 < k * 65536 * (q + 1));
    }
    assert(k * (-q) == -(k * q)) by (nonlinear_arith);
    assert(q >= 0) by (nonlinear_arith)
        requires
            q == (n * 65536) / (k * 65536),
            n >= 0,
            k >= 1,
    ;
}

/// The arctangent series keeps the sign of its argument and does not exceed it in size,
/// for arguments of at most one in size.
pub proof fn lemma_atan_approx_bounds(x: Dec32)
    requires
        -ONE_RAW <= x.0 <= ONE_RAW,
    ensures
        x.0 >= 0 ==> 0 <= atan_approx_spec(x).0 <= x.0,
        x.0 <= 0 ==> x.0 <= atan_approx_spec(x).0 <= 0,
        x.0 > 0 ==> atan_approx_spec(x).0 > 0,
        x.0 < 0 ==> atan_approx_spec(x).0 < 0,
{
    let xi = x.0 as int;
    assert(0 <= xi * xi <= 65536 * 65536) by (nonlinear_arith)
        requires
            -65536 <= xi <= 65536,
    ;
    let x2 = dec_mul(x, x);
    assert(0 <= (xi * xi) / 65536 <= 65536);
    assert(x2.0 == (xi * xi) / 65536);
    let q2 = x2.0 as int;
    lemma_scale_toward_zero(xi, q2);
    let x3 = dec_mul(x2, x);
    assert(x3.0 == (xi * q2) / 65536);
    let i3 = x3.0 as int;
    lemma_scale_toward_zero(i3, q2);
    let x5 = dec_mul(x3, x2);
    assert(x5.0 == (i3 * q2) / 65536);
    let i5 = x5.0 as int;
    lemma_scale_toward_zero(i5, q2);
    let x7 = dec_mul(x5, x2);
    assert(x7.0 == (i5 * q2) / 65536);
    let i7 = x7.0 as int;
    lemma_div_small(i3, 3);
    lemma_div_small(i5, 5);
    lemma_div_small(i7, 7);
    let d3 = dec_div(x3, Dec32(196608i32));
    let d5 = dec_div(x5, Dec32(327680i32));
    let d7 = dec_div(x7, Dec32(458752i32));
    assert(d3.0 == tdiv(i3 * 65536, 196608));
    assert(d5.0 == tdiv(i5 * 65536, 327680));
    assert(d7.0 == tdiv(i7 * 65536, 458752));
}

/// The library's `pi / 2` is `PI_RAW / 2`, and its negative counterpart the opposite.
proof fn lemma_half_pi_value()
    ensures
        half_pi_spec().0 == PI_RAW / 2,
        dec_div(Dec32(-205887i32), Dec32(131072i32)).0 == -(PI_RAW / 2),
{
    let n: int = 13493010432;
    assert(PI_RAW * 65536 == n);
    assert(iabs(n) == n);
    assert(iabs(131072) == 131072);
    assert(n / 131072 == 102943) by (nonlinear_arith)
        requires
            n == 13493010432,
    ;
    assert(tdiv(n, 131072) == 102943);
    assert(-205887 * 65536 == -n);
    assert(tdiv(-n, 131072) == -102943);
}

/// The arctangent has the sign of its argument and lies within `-pi/2..=pi/2`.
pub proof fn lemma_atan_sign_and_range(v: Dec32)
    requires
        v.0 != i32::MIN,
    ensures
        v.0 > 0 ==> 0 < atan_spec(v).0 <= PI_RAW / 2,
        v.0 == 0 ==> atan_spec(v).0 == 0,
        v.0 < 0 ==> -(PI_RAW / 2) <= atan_spec(v).0 < 0,
{
    lemma_half_pi_value();
    let a = if v.0 < 0 { -v.0 } else { v.0 as int };
    if a > ONE_RAW {
        let inv = dec_div(Dec32(ONE_RAW), Dec32(a as i32));
        let n: int = 4294967296;
        assert(0 <= n / a < 65536) by (nonlinear_arith)
            requires
                n == 65536 * 65536,
                a > 65536,
        ;
        assert(inv.0 == n / a);
        lemma_atan_approx_bounds(inv);
    } else {
        lemma_atan_approx_bounds(v);
    }
}

/// Above one, the arctangent and the arctangent of the reciprocal add up to `pi/2`,
/// and the arctangent of the negation is the negation of the arctangent.
pub proof fn lemma_atan_complement(y: Dec32)
    requires
        y.0 > ONE_RAW,
    ensures
        dec_add(atan_spec(y), atan_spec(dec_div(Dec32(ONE_RAW), y))) == half_pi_spec(),
        atan_spec(Dec32(-y.0 as i32)) == dec_neg(atan_spec(y)),
{
    lemma_half_pi_value();
    let inv = dec_div(Dec32(ONE_RAW), y);
    let n: int = 4294967296;
    assert(0 <= n / (y.0 as int) < 65536) by (nonlinear_arith)
        requires
            n == 4294967296,
            y.0 > 65536,
    ;
    assert(inv.0 == n / (y.0 as int));
    lemma_atan_approx_bounds(inv);
}

/// `atan2(y, x)` lies in `-pi..=pi` and in the quadrant of the point `(x, y)`: within
/// `-pi/2..=pi/2` for `x > 0`, above `pi/2` for `x < 0, y >= 0`, below `-pi/2` for
/// `x < 0, y < 0`, exactly `+-pi/2` on the vertical axis, and of the sign of `y`.
/// It holds wherever the quotient `y / x` fits in the fixed-point range.
pub proof fn lemma_atan2_quadrants(y: Dec32, x: Dec32)
    requires
        x.0 != 0 ==> i32::MIN < tdiv(y.0 * 65536, x.0 as int) <= i32::MAX,
    ensures
        -PI_RAW <= atan2_spec(y, x).0 <= PI_RAW,
        x.0 > 0 ==> -(PI_RAW / 2) <= atan2_spec(y, x).0 <= PI_RAW / 2,
        x.0 < 0 && y.0 >= 0 ==> atan2_spec(y, x).0 > PI_RAW / 2,
        x.0 < 0 && y.0 < 0 ==> atan2_spec(y, x).0 < -(PI_RAW / 2),
        x.0 == 0 && y.0 >= 0 ==> atan2_spec(y, x).0 == PI_RAW / 2,
        x.0 == 0 && y.0 < 0 ==> atan2_spec(y, x).0 == -(PI_RAW / 2),
        y.0 == 0 && x.0 > 0 ==> atan2_spec(y, x).0 == 0,
        y.0 > 0 ==> atan2_spec(y, x).0 >= 0,
        y.0 < 0 ==> atan2_spec(y, x).0 <= 0,
{
    lemma_half_pi_value();
    if x.0 != 0 && y.0 != 0 {
        let t = tdiv(y.0 * 65536, x.0 as int);
        let ratio = dec_div(y, x);
        assert(ratio.0 == t);
        assert((y.0 > 0) == (y.0 * 65536 > 0));
        assert((x.0 > 0) == (y.0 > 0) ==> t >= 0);
        assert((x.0 > 0) != (y.0 > 0) ==> t <= 0);
        lemma_atan_sign_and_range(ratio);
    }
}

} // verus!
