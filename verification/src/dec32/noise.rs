//! Three-dimensional Perlin noise on fixed-point coordinates.
use vstd::prelude::*;
use core::ops::Neg;

use super::dec32::{
    dec_add, dec_floor_int, dec_frac, dec_mul, dec_neg, dec_sub, shr16, Dec32, ONE_RAW,
};
use super::interpolation::{lerp, lerp_spec};

verus! {

/// The standard 256-entry permutation table of Perlin noise.
pub const PERM: [u8; 256] = [
    151, 160, 137, 91, 90, 15, 131, 13, 201, 95, 96, 53, 194, 233, 7, 225,
    140, 36, 103, 30, 69, 142, 8, 99, 37, 240, 21, 10, 23, 190, 6, 148,
    247, 120, 234, 75, 0, 26, 197, 62, 94, 252, 219, 203, 117, 35, 11, 32,
    57, 177, 33, 88, 237, 149, 56, 87, 174, 20, 125, 136, 171, 168, 68, 175,
    74, 165, 71, 134, 139, 48, 27, 166, 77, 146, 158, 231, 83, 111, 229, 122,
    60, 211, 133, 230, 220, 105, 92, 41, 55, 46, 245, 40, 244, 102, 143, 54,
    65, 25, 63, 161, 1, 216, 80, 73, 209, 76, 132, 187, 208, 89, 18, 169,
    200, 196, 135, 130, 116, 188, 159, 86, 164, 100, 109, 198, 173, 186, 3, 64,
    52, 217, 226, 250, 124, 123, 5, 202, 38, 147, 118, 126, 255, 82, 85, 212,
    207, 206, 59, 227, 47, 16, 58, 17, 182, 189, 28, 42, 223, 183, 170, 213,
    119, 248, 152, 2, 44, 154, 163, 70, 221, 153, 101, 155, 167, 43, 172, 9,
    129, 22, 39, 253, 19, 98, 108, 110, 79, 113, 224, 232, 178, 185, 112, 104,
    218, 246, 97, 228, 251, 34, 242, 193, 238, 210, 144, 12, 191, 179, 162, 241,
    81, 51, 145, 235, 249, 14, 239, 107, 49, 192, 214, 31, 181, 199, 106, 157,
    184, 84, 204, 176, 115, 121, 50, 45, 127, 4, 150, 254, 138, 236, 205, 93,
    222, 114, 67, 29, 24, 72, 243, 141, 128, 195, 78, 66, 215, 61, 156, 180,
];

/// `PERM[i mod 256]` as an index.
pub open spec fn perm_spec(i: int) -> int {
    PERM[i % 256] as int
}

/// Table lookup with the index reduced modulo 256.
pub fn perm(i: usize) -> (r: usize)
    ensures
        r == perm_spec(i as int),
        r < 256,
{
    PERM[i % 256] as usize
}

/// The fade curve `6t^5 - 15t^4 + 10t^3` in fixed-point arithmetic.
pub open spec fn fade_spec(t: Dec32) -> Dec32 {
    let t2 = dec_mul(t, t);
    let t3 = dec_mul(t2, t);
    let t4 = dec_mul(t3, t);
    let t5 = dec_mul(t4, t);
    dec_add(
        dec_sub(dec_mul(Dec32(393216i32), t5), dec_mul(Dec32(983040i32), t4)),
        dec_mul(Dec32(655360i32), t3),
    )
}

/// The gradient picked by the low four bits of `hash`, dotted with `(x, y, z)`.
pub open spec fn grad_spec(hash: u8, x: Dec32, y: Dec32, z: Dec32) -> Dec32 {
    let h = hash % 16;
    let u = if h < 8 { x } else { y };
    let v = if h < 4 { y } else if h == 12 || h == 14 { x } else { z };
    let u_val = if h % 2 == 0 { u } else { dec_neg(u) };
    let v_val = if (h / 2) % 2 == 0 { v } else { dec_neg(v) };
    dec_add(u_val, v_val)
}

/// Fade curve for Perlin noise: `6t^5 - 15t^4 + 10t^3`.
pub fn fade(t: Dec32) -> (r: Dec32)
    ensures
        r == fade_spec(t),
{
    let t2 = t * t;
    let t3 = t2 * t;
    let t4 = t3 * t;
    let t5 = t4 * t;
    let six = Dec32::from_i32(6);
    let fifteen = Dec32::from_i32(15);
    let ten = Dec32::from_i32(10);
    six * t5 - fifteen * t4 + ten * t3
}

/// Gradient function: a pseudo-random gradient chosen by `hash`, dotted with `(x, y, z)`.
pub fn grad(hash: u8, x: Dec32, y: Dec32, z: Dec32) -> (r: Dec32)
    ensures
        r == grad_spec(hash, x, y, z),
{
    let h = hash % 16;
    let u = if h < 8 {
        x
    } else {
        y
    };
    let v = if h < 4 {
        y
    } else if h == 12 || h == 14 {
        x
    } else {
        z
    };
    let u_val = if h % 2 == 0 {
        u
    } else {
        u.neg()
    };
    let v_val = if (h / 2) % 2 == 0 {
        v
    } else {
        v.neg()
    };
    u_val + v_val
}

/// The lattice cell coordinate of `c` reduced modulo 256 (`floor(c) & 255`).
pub open spec fn cell_spec(c: Dec32) -> int {
    dec_floor_int(c) % 256
}

/// Lattice cell coordinate modulo 256.
fn cell(c: Dec32) -> (r: usize)
    ensures
        r == cell_spec(c),
        r < 256,
{
    let i = c.to_i32();
    ((i as i64 + 65536) % 256) as usize
}

/// One octave of Perlin noise at `(x, y, z)`.
#[verifier::opaque]
pub open spec fn perlin3_single_spec(x: Dec32, y: Dec32, z: Dec32) -> Dec32 {
    let xi = cell_spec(x);
    let yi = cell_spec(y);
    let zi = cell_spec(z);
    let xf = dec_frac(x);
    let yf = dec_frac(y);
    let zf = dec_frac(z);
    let u = fade_spec(xf);
    let v = fade_spec(yf);
    let w = fade_spec(zf);
    let one = Dec32(ONE_RAW);
    let aaa = perm_spec(perm_spec(perm_spec(xi) + yi) + zi);
    let aba = perm_spec(perm_spec(perm_spec(xi) + yi + 1) + zi);
    let aab = perm_spec(perm_spec(perm_spec(xi) + yi) + zi + 1);
    let abb = perm_spec(perm_spec(perm_spec(xi) + yi + 1) + zi + 1);
    let baa = perm_spec(perm_spec(perm_spec(xi + 1) + yi) + zi);
    let bba = perm_spec(perm_spec(perm_spec(xi + 1) + yi + 1) + zi);
    let bab = perm_spec(perm_spec(perm_spec(xi + 1) + yi) + zi + 1);
    let bbb = perm_spec(perm_spec(perm_spec(xi + 1) + yi + 1) + zi + 1);
    let xm = dec_sub(xf, one);
    let ym = dec_sub(yf, one);
    let zm = dec_sub(zf, one);
    let x1 = lerp_spec(grad_spec(PERM[aaa], xf, yf, zf), grad_spec(PERM[baa], xm, yf, zf), u);
    let x2 = lerp_spec(grad_spec(PERM[aba], xf, ym, zf), grad_spec(PERM[bba], xm, ym, zf), u);
    let y1 = lerp_spec(x1, x2, v);
    let x3 = lerp_spec(grad_spec(PERM[aab], xf, yf, zm), grad_spec(PERM[bab], xm, yf, zm), u);
    let x4 = lerp_spec(grad_spec(PERM[abb], xf, ym, zm), grad_spec(PERM[bbb], xm, ym, zm), u);
    let y2 = lerp_spec(x3, x4, v);
    lerp_spec(y1, y2, w)
}

/// Single octave of 3D Perlin noise.
pub fn perlin3_single(x: Dec32, y: Dec32, z: Dec32) -> (r: Dec32)
    ensures
        r == perlin3_single_spec(x, y, z),
{
    reveal(perlin3_single_spec);
    let xi = cell(x);
    let yi = cell(y);
    let zi = cell(z);
    let xf = x.frac();
    let yf = y.frac();
    let zf = z.frac();
    let u = fade(xf);
    let v = fade(yf);
    let w = fade(zf);
    let aaa = perm(perm(perm(xi) + yi) + zi);
    let aba = perm(perm(perm(xi) + yi + 1) + zi);
    let aab = perm(perm(perm(xi) + yi) + zi + 1);
    let abb = perm(perm(perm(xi) + yi + 1) + zi + 1);
    let baa = perm(perm(perm(xi + 1) + yi) + zi);
    let bba = perm(perm(perm(xi + 1) + yi + 1) + zi);
    let bab = perm(perm(perm(xi + 1) + yi) + zi + 1);
    let bbb = perm(perm(perm(xi + 1) + yi + 1) + zi + 1);
    let one = Dec32::one();
    let x1 = lerp(grad(PERM[aaa], xf, yf, zf), grad(PERM[baa], xf - one, yf, zf), u);
    let x2 = lerp(grad(PERM[aba], xf, yf - one, zf), grad(PERM[bba], xf - one, yf - one, zf), u);
    let y1 = lerp(x1, x2, v);
    let x3 = lerp(grad(PERM[aab], xf, yf, zf - one), grad(PERM[bab], xf - one, yf, zf - one), u);
    let x4 = lerp(
        grad(PERM[abb], xf, yf - one, zf - one),
        grad(PERM[bbb], xf - one, yf - one, zf - one),
        u,
    );
    let y2 = lerp(x3, x4, v);
    lerp(y1, y2, w)
}

/// `2^k`.
pub open spec fn pow2_spec(k: nat) -> int
    decreases k,
{
    if k == 0 { 1 } else { 2 * pow2_spec((k - 1) as nat) }
}

/// Sum over the first `n` octaves of the noise value times the octave's amplitude
/// (octave `k` samples at frequency `2^k` with amplitude `65536 / 2^k`).
pub open spec fn octave_sum(x: Dec32, y: Dec32, z: Dec32, n: nat) -> int
    decreases n,
{
    if n == 0 {
        0
    } else {
        let k = (n - 1) as nat;
        let f = Dec32((65536 * pow2_spec(k)) as i32);
        octave_sum(x, y, z, k) + perlin3_single_spec(dec_mul(x, f), dec_mul(y, f), dec_mul(z, f)).0
            * (65536int / pow2_spec(k))
    }
}

/// The octave count actually used: `octaves` limited to `1..=8`.
pub open spec fn octave_count(octaves: u8) -> nat {
    if octaves < 1 { 1 } else if octaves > 8 { 8 } else { octaves as nat }
}

/// Fractal Perlin noise as `perlin3` computes it, before and after mapping to `0..=1`.
pub open spec fn perlin3_spec(x: Dec32, y: Dec32, z: Dec32, octaves: u8) -> Dec32 {
    let raw = Dec32((octave_sum(x, y, z, octave_count(octaves)) / 65536) as i32);
    let scaled = dec_add(dec_mul(raw, Dec32(78643i32)), Dec32(39321i32));
    if scaled.0 < 0 { Dec32(0) } else if scaled.0 > ONE_RAW { Dec32(ONE_RAW) } else { scaled }
}

proof fn lemma_pow2_bounds(k: nat)
    requires
        k <= 8,
    ensures
        1 <= pow2_spec(k) <= 256,
        65536int % pow2_spec(k) == 0,
        k < 8 ==> pow2_spec((k + 1) as nat) == 2 * pow2_spec(k),
{
    reveal_with_fuel(pow2_spec, 10);
    assert(pow2_spec(0) == 1);
    assert(pow2_spec(1) == 2);
    assert(pow2_spec(2) == 4);
    assert(pow2_spec(3) == 8);
    assert(pow2_spec(4) == 16);
    assert(pow2_spec(5) == 32);
    assert(pow2_spec(6) == 64);
    assert(pow2_spec(7) == 128);
    assert(pow2_spec(8) == 256);
    assert(k == 0 || k == 1 || k == 2 || k == 3 || k == 4 || k == 5 || k == 6 || k == 7 || k == 8);
}

/// 3D Perlin noise with 1 to 8 octaves, mapped into `0..=1`.
pub fn perlin3(x: Dec32, y: Dec32, z: Dec32, octaves: u8) -> (r: Dec32)
    ensures
        r == perlin3_spec(x, y, z, octaves),
        0 <= r.0 <= ONE_RAW,
{
    let octaves = if octaves < 1 {
        1u8
    } else if octaves > 8 {
        8u8
    } else {
        octaves
    };
    let mut total: i64 = 0;
    let mut amplitude: i64 = 65536;
    let mut frequency = Dec32::one();
    let mut i: u8 = 0;
    while i < octaves
        invariant
            1 <= octaves <= 8,
            i <= octaves,
            frequency.0 == 65536 * pow2_spec(i as nat),
            amplitude == 65536int / pow2_spec(i as nat),
            total == octave_sum(x, y, z, i as nat),
            -0x8000_0000_0000 * (i as int) <= total <= 0x8000_0000_0000 * (i as int),
        decreases octaves - i,
    {
        proof {
            lemma_pow2_bounds(i as nat);
            lemma_pow2_bounds((i + 1) as nat);
        }
        let sample_x = x * frequency;
        let sample_y = y * frequency;
        let sample_z = z * frequency;
        let noise_val: i64 = perlin3_single(sample_x, sample_y, sample_z).0 as i64;
        proof {
            assert(-0x8000_0000_0000 <= noise_val * amplitude <= 0x8000_0000_0000)
                by (nonlinear_arith)
                requires
                    -0x8000_0000 <= noise_val < 0x8000_0000,
                    0 <= amplitude <= 65536,
            ;
        }
        proof {
            let p = pow2_spec(i as nat);
            assert((65536int / p) / 2 == 65536int / (2 * p)) by (nonlinear_arith)
                requires 65536int % p == 0, 1 <= p <= 256;
        }
        total = total + noise_val * amplitude;
        amplitude = amplitude / 2;
        frequency = Dec32(frequency.0 * 2);
        i = i + 1;
    }
    let raw = Dec32(shr16(total) as i32);
    let scaled = raw * Dec32(78643) + Dec32(39321);
    if scaled.0 < 0 {
        Dec32::zero()
    } else if scaled.0 > ONE_RAW {
        Dec32::one()
    } else {
        scaled
    }
}

} // verus!
