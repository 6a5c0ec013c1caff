//! Square root, power, modulo and arctangent of fixed-point numbers.
use vstd::prelude::*;
use core::ops::Neg;

use super::dec32::{
    dec_add, dec_div, iabs, dec_floor_int, dec_frac, dec_from_int, dec_mul, dec_neg, dec_sub, tdiv,
    trunc_div, Dec32, ONE_RAW, PI_RAW,
};

verus! {

/// `4^k`.
pub open spec fn pow4(k: nat) -> int
    decreases k,
{
    if k == 0 { 1 } else { 4 * pow4((k - 1) as nat) }
}

/// `r` is the integer square root of `n`: the largest `r >= 0` with `r * r <= n`.
pub open spec fn is_isqrt(r: int, n: int) -> bool {
    0 <= r && r * r <= n < (r + 1) * (r + 1)
}

/// `r` is the fixed-point square root of `a` as `sqrt` computes it.
pub open spec fn sqrt_rel(a: Dec32, r: Dec32) -> bool {
    if a.0 <= 0 { r.0 == 0 } else { is_isqrt(r.0 as int, a.0 * 65536) }
}

/// The fixed-point square root of `a` (the unique `r` with `sqrt_rel(a, r)`).
pub open spec fn dec_sqrt(a: Dec32) -> Dec32 {
    choose|r: Dec32| sqrt_rel(a, r)
}

/// The integer square root is unique.
pub proof fn lemma_isqrt_unique(r1: int, r2: int, n: int)
    requires
        is_isqrt(r1, n),
        is_isqrt(r2, n),
    ensures
        r1 == r2,
{
    if r1 < r2 {
        assert((r1 + 1) * (r1 + 1) <= r2 * r2) by (nonlinear_arith)
            requires 0 <= r1, r1 + 1 <= r2;
    } else if r2 < r1 {
        assert((r2 + 1) * (r2 + 1) <= r1 * r1) by (nonlinear_arith)
            requires 0 <= r2, r2 + 1 <= r1;
    }
}

/// Any value related to `a` by `sqrt_rel` is `dec_sqrt(a)`.
pub proof fn lemma_dec_sqrt_unique(a: Dec32, r: Dec32)
    requires
        sqrt_rel(a, r),
    ensures
        dec_sqrt(a) == r,
{
    let c = dec_sqrt(a);
    assert(sqrt_rel(a, c));
    if a.0 > 0 {
        lemma_isqrt_unique(c.0 as int, r.0 as int, a.0 * 65536);
    }
}

/// Remainder of the division rounding toward zero (Rust's `%` on signed integers).
pub open spec fn trem(a: int, b: int) -> int {
    a - b * tdiv(a, b)
}

/// The remainder of the division rounding toward zero has the sign of the dividend
/// and is smaller than the divisor in magnitude.
pub proof fn lemma_trem_bound(a: int, b: int)
    requires
        b != 0,
    ensures
        iabs(trem(a, b)) <= iabs(a),
        iabs(trem(a, b)) < iabs(b),
        iabs(tdiv(a, b)) <= iabs(a),
        trem(a, b) == (if a >= 0 { iabs(a) % iabs(b) } else { -(iabs(a) % iabs(b)) }),
{
    let na = iabs(a);
    let nb = iabs(b);
    let q = na / nb;
    vstd::arithmetic::div_mod::lemma_fundamental_div_mod(na, nb);
    vstd::arithmetic::div_mod::lemma_mod_bound(na, nb);
    vstd::arithmetic::div_mod::lemma_div_pos_is_pos(na, nb);
    if a >= 0 && b > 0 {
        assert(trem(a, b) == na - nb * q);
    } else if a >= 0 && b < 0 {
        assert(tdiv(a, b) == -q);
        assert(b * (-q) == nb * q) by (nonlinear_arith) requires nb == -b;
    } else if a < 0 && b > 0 {
        assert(tdiv(a, b) == -q);
        assert(a - b * (-q) == -(na - nb * q)) by (nonlinear_arith) requires nb == b, na == -a;
    } else {
        assert(tdiv(a, b) == q);
        assert(a - b * q == -(na - nb * q)) by (nonlinear_arith) requires nb == -b, na == -a;
    }
    assert(nb * q >= 0) by (nonlinear_arith) requires nb > 0, q >= 0;
    assert(q <= na) by (nonlinear_arith) requires na == nb * q + na % nb, na % nb >= 0, nb >= 1, q >= 0;
}

/// GLSL-style modulo as computed by `modulo`.
pub open spec fn modulo_spec(x: Dec32, y: Dec32) -> Dec32 {
    if dec_frac(x).0 == 0 && dec_frac(y).0 == 0 && dec_floor_int(y) != 0 {
        dec_from_int(trem(dec_floor_int(x), dec_floor_int(y)))
    } else {
        let quotient = dec_div(x, y);
        let floored = dec_from_int(dec_floor_int(quotient));
        dec_sub(x, dec_mul(floored, y))
    }
}

/// `x - x^3/3 + x^5/5 - x^7/7` in fixed-point arithmetic.
pub open spec fn atan_approx_spec(x: Dec32) -> Dec32 {
    let x2 = dec_mul(x, x);
    let x3 = dec_mul(x2, x);
    let x5 = dec_mul(x3, x2);
    let x7 = dec_mul(x5, x2);
    dec_sub(
        dec_add(dec_sub(x, dec_div(x3, Dec32(196608i32))), dec_div(x5, Dec32(327680i32))),
        dec_div(x7, Dec32(458752i32)),
    )
}

/// pi / 2 as computed by the library.
pub open spec fn half_pi_spec() -> Dec32 {
    dec_div(Dec32(PI_RAW), Dec32(131072i32))
}

/// Arctangent: the series for `|y| <= 1`, the complementary angle otherwise.
pub open spec fn atan_spec(y: Dec32) -> Dec32 {
    let abs_y = if y.0 < 0 { Dec32(-y.0 as i32) } else { y };
    if abs_y.0 > ONE_RAW {
        let result = dec_sub(half_pi_spec(), atan_approx_spec(dec_div(Dec32(ONE_RAW), abs_y)));
        if y.0 < 0 { dec_neg(result) } else { result }
    } else {
        atan_approx_spec(y)
    }
}

/// Two-argument arctangent by quadrant.
pub open spec fn atan2_spec(y: Dec32, x: Dec32) -> Dec32 {
    if x.0 == 0 {
        if y.0 >= 0 { half_pi_spec() } else { dec_div(dec_neg(Dec32(PI_RAW)), Dec32(131072i32)) }
    } else if y.0 == 0 {
        if x.0 >= 0 { Dec32(0) } else { Dec32(PI_RAW) }
    } else {
        let angle = atan_spec(dec_div(y, x));
        if x.0 > 0 {
            angle
        } else if y.0 >= 0 {
            dec_add(angle, Dec32(PI_RAW))
        } else {
            dec_sub(angle, Dec32(PI_RAW))
        }
    }
}

/// The squaring loop of `pow`: multiply `result` by `base_power` for each set bit of `e`.
pub open spec fn pow_loop(result: Dec32, base_power: Dec32, e: nat) -> Dec32
    decreases e,
{
    if e == 0 {
        result
    } else {
        let next = if e % 2 == 1 { dec_mul(result, base_power) } else { result };
        pow_loop(next, dec_mul(base_power, base_power), e / 2)
    }
}

/// `base^exp` by exponentiation by squaring (for `exp >= 0`).
pub open spec fn pow_nonneg_spec(base: Dec32, exp: nat) -> Dec32 {
    if exp == 0 {
        Dec32(ONE_RAW)
    } else if exp == 1 {
        base
    } else {
        pow_loop(Dec32(ONE_RAW), base, exp)
    }
}

/// `base^exp`; a negative exponent gives `1 / base^|exp|`, or 0 where that power is 0.
pub open spec fn pow_spec(base: Dec32, exp: int) -> Dec32 {
    if exp < 0 {
        let p = pow_nonneg_spec(base, (-exp) as nat);
        if p.0 == 0 { Dec32(0) } else { dec_div(Dec32(ONE_RAW), p) }
    } else {
        pow_nonneg_spec(base, exp as nat)
    }
}

/// Modulo (GLSL-compatible): integer operands use the integer remainder, others
/// `x - floor(x / y) * y`.
pub fn modulo(x: Dec32, y: Dec32) -> (r: Dec32)
    requires
        y.0 != 0,
    ensures
        r == modulo_spec(x, y),
{
    if x.frac().0 == 0 && y.frac().0 == 0 {
        let x_int = x.to_i32();
        let y_int = y.to_i32();
        if y_int != 0 {
            let q: i64 = trunc_div(x_int as i64, y_int as i64);
            proof {
                lemma_trem_bound(x_int as int, y_int as int);
                assert(-32768 <= x_int < 32768);
                assert(-0x4000_0000 <= q * (y_int as int) <= 0x4000_0000) by (nonlinear_arith)
                    requires
                        -32768 <= q <= 32768,
                        -32768 <= y_int <= 32768,
                ;
            }
            let prod: i64 = q * (y_int as i64);
            let rem: i64 = x_int as i64 - prod;
            assert(prod == (y_int as int) * (q as int)) by (nonlinear_arith)
                requires prod == (q as int) * (y_int as int);
            assert(rem == trem(x_int as int, y_int as int));
            return Dec32::from_i32(rem as i32);
        }
    }
    let quotient = x / y;
    let floored = Dec32::from_i32(quotient.to_i32());
    x - floored * y
}

/// Fractional part (`x - floor(x)`).
pub fn fract(x: Dec32) -> (r: Dec32)
    ensures
        r == dec_frac(x),
        0 <= r.0 < ONE_RAW,
{
    x.frac()
}

/// Arctangent series `x - x^3/3 + x^5/5 - x^7/7`, meant for `|x| <= 1`.
pub fn atan_approx(x: Dec32) -> (r: Dec32)
    ensures
        r == atan_approx_spec(x),
{
    let x2 = x * x;
    let x3 = x2 * x;
    let x5 = x3 * x2;
    let x7 = x5 * x2;
    x - x3 / Dec32::from_i32(3) + x5 / Dec32::from_i32(5) - x7 / Dec32::from_i32(7)
}

/// Arctangent in radians; for `|y| > 1` it uses `atan(y) = pi/2 - atan(1/y)`.
pub fn atan(y: Dec32) -> (r: Dec32)
    requires
        y.0 != i32::MIN,
    ensures
        r == atan_spec(y),
{
    let abs_y = if y.0 < 0 {
        Dec32(-y.0)
    } else {
        y
    };
    if abs_y.0 > ONE_RAW {
        let result = Dec32::pi() / Dec32::from_i32(2) - atan_approx(Dec32::one() / abs_y);
        if y.0 < 0 {
            result.neg()
        } else {
            result
        }
    } else {
        atan_approx(y)
    }
}

/// Two-argument arctangent: the angle of `(x, y)` in `-pi..=pi`.
pub fn atan2(y: Dec32, x: Dec32) -> (r: Dec32)
    requires
        x.0 != 0 && y.0 != 0 ==> dec_div(y, x).0 != i32::MIN,
    ensures
        r == atan2_spec(y, x),
{
    if x.0 == 0 {
        return if y.0 >= 0 {
            Dec32::pi() / Dec32::from_i32(2)
        } else {
            Dec32::pi().neg() / Dec32::from_i32(2)
        };
    }
    if y.0 == 0 {
        return if x.0 >= 0 {
            Dec32::zero()
        } else {
            Dec32::pi()
        };
    }
    let ratio = y / x;
    let angle = atan(ratio);
    if x.0 > 0 {
        angle
    } else if y.0 >= 0 {
        angle + Dec32::pi()
    } else {
        angle - Dec32::pi()
    }
}

/// Square root: the raw result is the integer square root of `raw << 16`;
/// zero and negative inputs give 0.
pub fn sqrt(a: Dec32) -> (r: Dec32)
    ensures
        a.0 <= 0 ==> r.0 == 0,
        a.0 > 0 ==> is_isqrt(r.0 as int, a.0 * 65536),
        sqrt_rel(a, r),
        r == dec_sqrt(a),
{
    if a.0 <= 0 {
        proof {
            lemma_dec_sqrt_unique(a, Dec32(0));
        }
        return Dec32::zero();
    }
    let n: i64 = a.0 as i64 * 65536;
    let mut x: i64 = n;
    let mut result: i64 = 0;
    let mut bit: i64 = 0x4000_0000_0000;
    let ghost mut k: nat = 23;
    proof {
        reveal_with_fuel(pow4, 24);
        assert(pow4(23) == 0x4000_0000_0000);
    }
    while bit > x
        invariant
            x == n,
            0 < n < 0x8000_0000_0000,
            bit == pow4(k),
            n < 4 * bit,
        decreases bit,
    {
        proof {
            if k == 0 {
                assert(false);
            }
        }
        bit = bit / 4;
        proof {
            k = (k - 1) as nat;
        }
    }
    let ghost mut y: int = 0;
    let ghost mut pk: int = 4 * bit;
    assert(n < (y + 1) * (y + 1) * pk) by (nonlinear_arith)
        requires y == 0, n < pk;
    while bit != 0
        invariant
            0 < n < 0x8000_0000_0000,
            0 <= y,
            bit > 0 ==> bit == pow4(k) && pk == 4 * bit,
            bit == 0 ==> pk == 1,
            0 <= bit <= 0x4000_0000_0000,
            result == y * pk,
            x == n - y * y * pk,
            0 <= x,
            n < (y + 1) * (y + 1) * pk,
        decreases bit,
    {
        proof {
            assert(y * pk <= n) by (nonlinear_arith)
                requires
                    x == n - y * y * pk,
                    0 <= x,
                    y >= 0,
                    pk >= 1,
            {
                if y >= 1 {
                    assert(y * pk <= y * y * pk);
                }
            }
        }
        let old_bit = bit;
        if x >= result + bit {
            x = x - (result + bit);
            proof {
                assert(result / 2 == 2 * y * bit) by (nonlinear_arith)
                    requires result == y * (4 * bit);
            }
            result = (result / 2) + bit;
            proof {
                assert(x == n - (2 * y + 1) * (2 * y + 1) * bit) by (nonlinear_arith)
                    requires
                        x == n - y * y * (4 * bit) - (y * (4 * bit) + bit),
                ;
                assert(n < (2 * y + 2) * (2 * y + 2) * bit) by (nonlinear_arith)
                    requires n < (y + 1) * (y + 1) * (4 * bit);
                assert(result == (2 * y + 1) * bit) by (nonlinear_arith)
                    requires result == 2 * y * bit + bit;
                y = 2 * y + 1;
            }
        } else {
            proof {
                assert(result / 2 == (2 * y) * bit) by (nonlinear_arith)
                    requires result == y * (4 * bit);
                assert(n < (2 * y + 1) * (2 * y + 1) * bit) by (nonlinear_arith)
                    requires
                        n - y * y * (4 * bit) < y * (4 * bit) + bit,
                ;
                assert(x == n - (2 * y) * (2 * y) * bit) by (nonlinear_arith)
                    requires x == n - y * y * (4 * bit);
            }
            result = result / 2;
            proof {
                y = 2 * y;
            }
        }
        bit = bit / 4;
        proof {
            pk = old_bit as int;
            if bit > 0 {
                assert(k > 0);
                k = (k - 1) as nat;
            } else {
                if k > 0 {
                    assert(pow4(k) >= 4) by {
                        lemma_pow4_ge(k);
                    }
                }
            }
        }
    }
    proof {
        assert(result < 0x100_0000) by (nonlinear_arith)
            requires
                result == y,
                y * y <= n,
                n < 0x8000_0000_0000,
                y >= 0,
        {
            if y >= 0x100_0000 {
                assert(y * y >= 0x100_0000 * 0x100_0000);
            }
        }
    }
    let r = Dec32(result as i32);
    proof {
        lemma_dec_sqrt_unique(a, r);
    }
    r
}

/// `base^exp` for non-negative exponents, by repeated squaring.
fn pow_nonneg(base: Dec32, exp: i32) -> (r: Dec32)
    requires
        exp >= 0,
    ensures
        r == pow_nonneg_spec(base, exp as nat),
{
    if exp == 0 {
        return Dec32::one();
    }
    if exp == 1 {
        return base;
    }
    let mut result = Dec32::one();
    let mut base_power = base;
    let mut remaining_exp = exp;
    while remaining_exp > 0
        invariant
            remaining_exp >= 0,
            pow_loop(result, base_power, remaining_exp as nat) == pow_loop(
                Dec32(ONE_RAW),
                base,
                exp as nat,
            ),
        decreases remaining_exp,
    {
        if remaining_exp % 2 == 1 {
            result = result * base_power;
        }
        base_power = base_power * base_power;
        remaining_exp = remaining_exp / 2;
    }
    result
}

/// Power with an integer exponent: `base^exp` by squaring; a negative exponent gives
/// `1 / base^|exp|`, or 0 where that power is 0.
pub fn pow(base: Dec32, exp: i32) -> (r: Dec32)
    requires
        exp != i32::MIN,
    ensures
        r == pow_spec(base, exp as int),
{
    if exp < 0 {
        let positive_result = pow_nonneg(base, -exp);
        if positive_result.0 == 0 {
            return Dec32::zero();
        }
        return Dec32::one() / positive_result;
    }
    pow_nonneg(base, exp)
}

/// `4^k >= 4` for `k >= 1`.
pub proof fn lemma_pow4_ge(k: nat)
    requires
        k >= 1,
    ensures
        pow4(k) >= 4,
    decreases k,
{
    reveal_with_fuel(pow4, 2);
    if k > 1 {
        lemma_pow4_ge((k - 1) as nat);
    }
}

/// A negative power is the reciprocal of the positive one (0 where that power is 0);
/// the zeroth power is one, the first power the base, and the second the base times
/// itself.
pub proof fn lemma_pow_laws(base: Dec32, e: nat)
    requires
        e > 0,
    ensures
        pow_spec(base, -e) == (if pow_spec(base, e as int).0 == 0 {
            Dec32(0)
        } else {
            dec_div(Dec32(ONE_RAW), pow_spec(base, e as int))
        }),
        pow_spec(base, 0) == Dec32(ONE_RAW),
        pow_spec(base, 1) == base,
        pow_spec(base, 2) == dec_mul(base, base),
        base.0 != 0 ==> pow_spec(base, -1) == dec_div(Dec32(ONE_RAW), base),
{
    let bb = dec_mul(base, base);
    assert((ONE_RAW * bb.0) / 65536 == bb.0) by (nonlinear_arith);
    assert(pow_loop(Dec32(ONE_RAW), base, 2) == pow_loop(Dec32(ONE_RAW), bb, 1));
    assert(pow_loop(Dec32(ONE_RAW), bb, 1) == pow_loop(dec_mul(Dec32(ONE_RAW), bb), dec_mul(bb, bb), 0));
}

/// Doubling the exponent is squaring the base: `base^(2e) == (base * base)^e`, for
/// positive and negative exponents alike.
pub proof fn lemma_pow_even(base: Dec32, e: nat)
    requires
        e >= 1,
    ensures
        pow_spec(base, (2 * e) as int) == pow_spec(dec_mul(base, base), e as int),
        pow_spec(base, -(2 * e)) == pow_spec(dec_mul(base, base), -e),
{
    let bb = dec_mul(base, base);
    let two_e: nat = 2 * e;
    assert(two_e % 2 == 0 && two_e / 2 == e);
    assert((ONE_RAW * bb.0) / 65536 == bb.0) by (nonlinear_arith);
    assert(pow_loop(Dec32(ONE_RAW), base, two_e) == pow_loop(Dec32(ONE_RAW), bb, e));
    assert(pow_loop(Dec32(ONE_RAW), bb, 1) == pow_loop(dec_mul(Dec32(ONE_RAW), bb), dec_mul(bb, bb), 0));
    assert(pow_nonneg_spec(base, two_e) == pow_nonneg_spec(bb, e));
}

/// A negative power of a value whose positive power exceeds one in size is at most one
/// in size: the reciprocal shrinks what the power grows.
pub proof fn lemma_pow_negative_shrinks(base: Dec32, e: nat)
    requires
        e > 0,
        iabs(pow_spec(base, e as int).0 as int) >= ONE_RAW,
    ensures
        iabs(pow_spec(base, -e).0 as int) <= ONE_RAW,
{
    let p = pow_spec(base, e as int).0 as int;
    let n = ONE_RAW * 65536;
    let q = iabs(n) / iabs(p);
    assert(0 <= q <= ONE_RAW) by (nonlinear_arith)
        requires
            q == iabs(n) / iabs(p),
            iabs(n) == 65536 * 65536,
            iabs(p) >= 65536,
    ;
}

} // verus!
