//! Trigonometry on fixed-point numbers by table lookup.
use vstd::prelude::*;
use core::ops::Neg;

use super::dec32::{dec_add, dec_div, dec_neg, iabs, dec_frac, dec_floor_int, wrap32, Dec32, ONE_RAW, PI_RAW, TAU_RAW};

verus! {

/// Number of entries in the sine table (one full turn).
pub const SIN_TABLE_LEN: usize = 256;

/// `sin(2 * pi * i / 256)` in 16.16 fixed point, for `i` in `0..256`.
pub const SIN_TABLE_I32: [i32; 256] = [
    0, 1608, 3216, 4821, 6424, 8022, 9616, 11204,
    12785, 14359, 15924, 17479, 19024, 20557, 22078, 23586,
    25080, 26558, 28020, 29466, 30893, 32303, 33692, 35062,
    36410, 37736, 39040, 40320, 41576, 42806, 44011, 45190,
    46341, 47464, 48559, 49624, 50660, 51665, 52639, 53581,
    54491, 55368, 56212, 57022, 57798, 58538, 59244, 59914,
    60547, 61145, 61705, 62228, 62714, 63162, 63572, 63944,
    64277, 64571, 64827, 65043, 65220, 65358, 65457, 65516,
    65536, 65516, 65457, 65358, 65220, 65043, 64827, 64571,
    64277, 63944, 63572, 63162, 62714, 62228, 61705, 61145,
    60547, 59914, 59244, 58538, 57798, 57022, 56212, 55368,
    54491, 53581, 52639, 51665, 50660, 49624, 48559, 47464,
    46341, 45190, 44011, 42806, 41576, 40320, 39040, 37736,
    36410, 35062, 33692, 32303, 30893, 29466, 28020, 26558,
    25080, 23586, 22078, 20557, 19024, 17479, 15924, 14359,
    12785, 11204, 9616, 8022, 6424, 4821, 3216, 1608,
    0, -1608, -3216, -4821, -6424, -8022, -9616, -11204,
    -12785, -14359, -15924, -17479, -19024, -20557, -22078, -23586,
    -25080, -26558, -28020, -29466, -30893, -32303, -33692, -35062,
    -36410, -37736, -39040, -40320, -41576, -42806, -44011, -45190,
    -46341, -47464, -48559, -49624, -50660, -51665, -52639, -53581,
    -54491, -55368, -56212, -57022, -57798, -58538, -59244, -59914,
    -60547, -61145, -61705, -62228, -62714, -63162, -63572, -63944,
    -64277, -64571, -64827, -65043, -65220, -65358, -65457, -65516,
    -65536, -65516, -65457, -65358, -65220, -65043, -64827, -64571,
    -64277, -63944, -63572, -63162, -62714, -62228, -61705, -61145,
    -60547, -59914, -59244, -58538, -57798, -57022, -56212, -55368,
    -54491, -53581, -52639, -51665, -50660, -49624, -48559, -47464,
    -46341, -45190, -44011, -42806, -41576, -40320, -39040, -37736,
    -36410, -35062, -33692, -32303, -30893, -29466, -28020, -26558,
    -25080, -23586, -22078, -20557, -19024, -17479, -15924, -14359,
    -12785, -11204, -9616, -8022, -6424, -4821, -3216, -1608,
];

/// The table entry that `sin` reads for the angle `x` (radians, a full turn is tau).
pub open spec fn sin_index(x: Dec32) -> int {
    let normalized = dec_frac(dec_div(x, Dec32(TAU_RAW)));
    let index = dec_floor_int(Dec32(wrap32(normalized.0 * 256)));
    if index < 255 { index } else { 255 }
}

/// Sine by table lookup.
pub open spec fn sin_spec(x: Dec32) -> Dec32 {
    Dec32(SIN_TABLE_I32[sin_index(x)])
}

/// pi / 2 as computed by the library (`PI / 2`).
pub open spec fn half_pi() -> Dec32 {
    dec_div(Dec32(PI_RAW), Dec32(131072i32))
}

/// Cosine as the sine of the angle shifted by a quarter turn.
pub open spec fn cos_spec(x: Dec32) -> Dec32 {
    sin_spec(dec_add(x, half_pi()))
}

/// Sine using a lookup table. Input in radians (a full turn is 2 pi), output in `-1..=1`.
pub fn sin(x: Dec32) -> (r: Dec32)
    ensures
        r == sin_spec(x),
        -ONE_RAW <= r.0 <= ONE_RAW,
{
    let normalized = (x / Dec32::tau()).frac();
    let table_size: i32 = 256;
    let index = normalized.mul_int(table_size).to_i32();
    assert(0 <= index < 256);
    let idx: usize = if (index as usize) < SIN_TABLE_LEN - 1 { index as usize } else { SIN_TABLE_LEN - 1 };
    proof {
        assert forall|i: int| 0 <= i < 256 implies -ONE_RAW <= #[trigger] SIN_TABLE_I32[i] <= ONE_RAW by {
        }
    }
    Dec32(SIN_TABLE_I32[idx])
}

/// Tangent as `sin / cos`, with `+-100` where the cosine is nearly zero.
pub open spec fn tan_spec(x: Dec32) -> Dec32 {
    let s = sin_spec(x);
    let c = cos_spec(x);
    if iabs(c.0 as int) < 100 {
        if s.0 >= 0 { Dec32(6553600) } else { dec_neg(Dec32(6553600)) }
    } else {
        dec_div(s, c)
    }
}

/// Cosine using the sine table: `cos(x) = sin(x + pi/2)`.
pub fn cos(x: Dec32) -> (r: Dec32)
    ensures
        r == cos_spec(x),
        -ONE_RAW <= r.0 <= ONE_RAW,
{
    let pi_over_2 = Dec32::pi() / Dec32::from_i32(2);
    sin(x + pi_over_2)
}

/// Tangent (`sin / cos`); where `|cos|` is below 100 raw units the result is
/// 100.0 with the sign of the sine.
pub fn tan(x: Dec32) -> (r: Dec32)
    ensures
        r == tan_spec(x),
{
    let s = sin(x);
    let c = cos(x);
    let ca: i32 = if c.0 < 0 { -c.0 } else { c.0 };
    if ca < 100 {
        let large = Dec32::one() * Dec32::from_i32(100);
        return if s.0 >= 0 {
            large
        } else {
            large.neg()
        };
    }
    s / c
}

/// The sine (and so the cosine) lies in `-1..=1`: it is a table entry.
pub proof fn lemma_sin_bounded(x: Dec32)
    ensures
        -ONE_RAW <= sin_spec(x).0 <= ONE_RAW,
        -ONE_RAW <= cos_spec(x).0 <= ONE_RAW,
{
    let v = dec_div(x, Dec32(TAU_RAW));
    let y = dec_add(x, half_pi());
    let vy = dec_div(y, Dec32(TAU_RAW));
    assert(0 <= dec_frac(v).0 < 65536);
    assert(0 <= dec_frac(vy).0 < 65536);
    assert(0 <= dec_frac(v).0 * 256 < 0x7fff_ffff);
    assert(0 <= dec_frac(vy).0 * 256 < 0x7fff_ffff);
    assert(0 <= sin_index(x) < 256);
    assert(0 <= sin_index(y) < 256);
    assert forall|i: int| 0 <= i < 256 implies -ONE_RAW <= #[trigger] SIN_TABLE_I32[i] <= ONE_RAW by {
    }
}

/// Where the cosine is not near zero (`|cos x| >= 100` raw), the tangent is the sine
/// divided by the cosine, and its sign is the product of their signs.
pub proof fn lemma_tan_is_sin_over_cos(x: Dec32)
    requires
        iabs(cos_spec(x).0 as int) >= 100,
    ensures
        tan_spec(x) == dec_div(sin_spec(x), cos_spec(x)),
        sin_spec(x).0 >= 0 && cos_spec(x).0 > 0 ==> tan_spec(x).0 >= 0,
        sin_spec(x).0 <= 0 && cos_spec(x).0 > 0 ==> tan_spec(x).0 <= 0,
        sin_spec(x).0 >= 0 && cos_spec(x).0 < 0 ==> tan_spec(x).0 <= 0,
        sin_spec(x).0 <= 0 && cos_spec(x).0 < 0 ==> tan_spec(x).0 >= 0,
        iabs(tan_spec(x).0 as int) <= 42949673,
{
    lemma_sin_bounded(x);
    let s = sin_spec(x).0 as int;
    let c = cos_spec(x).0 as int;
    let n = s * 65536;
    assert(iabs(n) <= 65536 * 65536) by (nonlinear_arith)
        requires
            n == s * 65536,
            -65536 <= s <= 65536,
    ;
    let q = iabs(n) / iabs(c);
    assert(0 <= q <= 42949673) by (nonlinear_arith)
        requires
            q == iabs(n) / iabs(c),
            0 <= iabs(n) <= 65536 * 65536,
            iabs(c) >= 100,
    ;
    assert(n >= 0 <==> s >= 0) by (nonlinear_arith)
        requires
            n == s * 65536,
    ;
}

} // verus!
