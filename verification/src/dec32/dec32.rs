//! The 16.16 signed fixed-point number type and its arithmetic.
use vstd::prelude::*;

verus! {

/// A 16.16 signed fixed-point number: the raw `i32` holds the value times 65536.
///
/// Arithmetic wraps around on overflow (two's complement), so every operation is
/// total except division by zero.
#[derive(Clone, Copy, Debug, PartialEq, Eq, Structural, PartialOrd, Ord, Hash)]
pub struct Dec32(pub i32);

/// Number of fractional bits.
pub const SHIFT: i32 = 16;
/// Raw representation of 1.0.
pub const ONE_RAW: i32 = 65536;
/// Raw representation of 0.5.
pub const HALF_RAW: i32 = 32768;
/// Raw representation of pi (3.14159...).
pub const PI_RAW: i32 = 205887;
/// Raw representation of tau = 2 * pi.
pub const TAU_RAW: i32 = 411775;

/// Two's complement truncation of an integer to 32 bits.
pub open spec fn wrap32(x: int) -> i32 {
    x as i32
}

/// Absolute value of a mathematical integer.
pub open spec fn iabs(x: int) -> int {
    if x < 0 { -x } else { x }
}

/// Division rounding toward zero (the rule of Rust's `/` on signed integers).
pub open spec fn tdiv(n: int, d: int) -> int {
    if (n >= 0) == (d > 0) { iabs(n) / iabs(d) } else { -(iabs(n) / iabs(d)) }
}

/// Fixed-point sum, wrapping on overflow.
pub open spec fn dec_add(a: Dec32, b: Dec32) -> Dec32 {
    Dec32(wrap32(a.0 + b.0))
}

/// Fixed-point difference, wrapping on overflow.
pub open spec fn dec_sub(a: Dec32, b: Dec32) -> Dec32 {
    Dec32(wrap32(a.0 - b.0))
}

/// Fixed-point negation, wrapping on overflow.
pub open spec fn dec_neg(a: Dec32) -> Dec32 {
    Dec32(wrap32(-a.0))
}

/// Fixed-point product: the exact product of the raw values, shifted right by 16
/// (rounding toward negative infinity), then truncated to 32 bits.
pub open spec fn dec_mul(a: Dec32, b: Dec32) -> Dec32 {
    Dec32(wrap32((a.0 * b.0) / 65536))
}

/// Fixed-point quotient: the dividend shifted left by 16 and divided by the raw divisor,
/// rounding toward zero, then truncated to 32 bits.
pub open spec fn dec_div(a: Dec32, b: Dec32) -> Dec32 {
    Dec32(wrap32(tdiv(a.0 * 65536, b.0 as int)))
}

/// The value of `i` as a fixed-point number (`i << 16`).
pub open spec fn dec_from_int(i: int) -> Dec32 {
    Dec32(wrap32(i * 65536))
}

/// The integer part, rounded toward negative infinity (`raw >> 16`).
pub open spec fn dec_floor_int(a: Dec32) -> int {
    a.0 / 65536
}

/// The fractional part as a non-negative fixed-point number (`raw & 0xFFFF`).
pub open spec fn dec_frac(a: Dec32) -> Dec32 {
    Dec32((a.0 % 65536) as i32)
}

/// Smaller of two values.
pub open spec fn dec_min(a: Dec32, b: Dec32) -> Dec32 {
    if a.0 <= b.0 { a } else { b }
}

/// Larger of two values.
pub open spec fn dec_max(a: Dec32, b: Dec32) -> Dec32 {
    if a.0 >= b.0 { a } else { b }
}

/// `x` limited to the range `lo..=hi`: `lo` below it, `hi` above it.
pub open spec fn dec_clamp(x: Dec32, lo: Dec32, hi: Dec32) -> Dec32 {
    if x.0 < lo.0 { lo } else if x.0 > hi.0 { hi } else { x }
}

/// Floor division by 65536 of a 64-bit value (an arithmetic shift right by 16).
pub fn shr16(p: i64) -> (r: i64)
    requires
        -0x4000_0000_0000_0000 <= p <= 0x4000_0000_0000_0000,
    ensures
        r == p / 65536,
{
    if p >= 0 {
        p / 65536
    } else {
        let m: i64 = -p;
        let q: i64 = m / 65536;
        if q * 65536 == m {
            -q
        } else {
            -q - 1
        }
    }
}

/// Exact product of two 32-bit values.
pub fn wide_mul(a: i32, b: i32) -> (r: i64)
    ensures
        r == a * b,
        -0x4000_0000_0000_0000 <= r <= 0x4000_0000_0000_0000,
{
    proof {
        assert(-0x4000_0000_0000_0000 <= (a as int) * (b as int) <= 0x4000_0000_0000_0000)
            by (nonlinear_arith)
            requires
                -0x8000_0000 <= a < 0x8000_0000,
                -0x8000_0000 <= b < 0x8000_0000,
        ;
    }
    a as i64 * b as i64
}

/// Division rounding toward zero of 64-bit values.
pub fn trunc_div(n: i64, d: i64) -> (r: i64)
    requires
        d != 0,
        -0x4000_0000_0000_0000 <= n <= 0x4000_0000_0000_0000,
        -0x4000_0000_0000_0000 <= d <= 0x4000_0000_0000_0000,
    ensures
        r == tdiv(n as int, d as int),
{
    let an: i64 = if n < 0 { -n } else { n };
    let ad: i64 = if d < 0 { -d } else { d };
    let q: i64 = an / ad;
    if (n >= 0) == (d > 0) {
        q
    } else {
        -q
    }
}

impl Dec32 {
    /// 0.0
    pub fn zero() -> (r: Dec32)
        ensures
            r.0 == 0,
    {
        Dec32(0)
    }

    /// 1.0
    pub fn one() -> (r: Dec32)
        ensures
            r.0 == ONE_RAW,
    {
        Dec32(ONE_RAW)
    }

    /// 0.5
    pub fn half() -> (r: Dec32)
        ensures
            r.0 == HALF_RAW,
    {
        Dec32(HALF_RAW)
    }

    /// pi
    pub fn pi() -> (r: Dec32)
        ensures
            r.0 == PI_RAW,
    {
        Dec32(PI_RAW)
    }

    /// tau = 2 * pi
    pub fn tau() -> (r: Dec32)
        ensures
            r.0 == TAU_RAW,
    {
        Dec32(TAU_RAW)
    }

    /// Integer to fixed point (`i << 16`, high bits lost).
    pub fn from_i32(i: i32) -> (r: Dec32)
        ensures
            r == dec_from_int(i as int),
    {
        Dec32((i as i64 * 65536) as i32)
    }

    /// Integer part, rounded toward negative infinity.
    pub fn to_i32(self) -> (r: i32)
        ensures
            r == dec_floor_int(self),
    {
        shr16(self.0 as i64) as i32
    }

    /// Fractional part, always in `0..1`.
    pub fn frac(self) -> (r: Dec32)
        ensures
            r == dec_frac(self),
            0 <= r.0 < ONE_RAW,
    {
        let q: i64 = shr16(self.0 as i64);
        Dec32((self.0 as i64 - q * 65536) as i32)
    }

    /// Multiply by a plain integer (wrapping).
    pub fn mul_int(self, i: i32) -> (r: Dec32)
        ensures
            r.0 == wrap32(self.0 * i),
    {
        Dec32(wide_mul(self.0, i) as i32)
    }

    /// Absolute value (wrapping: the most negative value stays as it is).
    pub fn abs(self) -> (r: Dec32)
        ensures
            r.0 == wrap32(iabs(self.0 as int)),
    {
        if self.0 < 0 {
            Dec32((-(self.0 as i64)) as i32)
        } else {
            self
        }
    }

    /// Smaller of two values.
    pub fn min(self, other: Dec32) -> (r: Dec32)
        ensures
            r == dec_min(self, other),
    {
        if self.0 <= other.0 {
            self
        } else {
            other
        }
    }

    /// Larger of two values.
    pub fn max(self, other: Dec32) -> (r: Dec32)
        ensures
            r == dec_max(self, other),
    {
        if self.0 >= other.0 {
            self
        } else {
            other
        }
    }

    /// Limit to `lo..=hi`.
    pub fn clamp(self, lo: Dec32, hi: Dec32) -> (r: Dec32)
        ensures
            r == dec_clamp(self, lo, hi),
    {
        if self.0 < lo.0 {
            lo
        } else if self.0 > hi.0 {
            hi
        } else {
            self
        }
    }
}

impl core::ops::Add for Dec32 {
    type Output = Dec32;

    fn add(self, rhs: Dec32) -> (r: Dec32)
        ensures
            r == dec_add(self, rhs),
    {
        Dec32((self.0 as i64 + rhs.0 as i64) as i32)
    }
}

impl vstd::std_specs::ops::AddSpecImpl for Dec32 {
    open spec fn obeys_add_spec() -> bool {
        true
    }

    open spec fn add_req(self, rhs: Dec32) -> bool {
        true
    }

    open spec fn add_spec(self, rhs: Dec32) -> Dec32 {
        dec_add(self, rhs)
    }
}

impl core::ops::Sub for Dec32 {
    type Output = Dec32;

    fn sub(self, rhs: Dec32) -> (r: Dec32)
        ensures
            r == dec_sub(self, rhs),
    {
        Dec32((self.0 as i64 - rhs.0 as i64) as i32)
    }
}

impl vstd::std_specs::ops::SubSpecImpl for Dec32 {
    open spec fn obeys_sub_spec() -> bool {
        true
    }

    open spec fn sub_req(self, rhs: Dec32) -> bool {
        true
    }

    open spec fn sub_spec(self, rhs: Dec32) -> Dec32 {
        dec_sub(self, rhs)
    }
}

impl core::ops::Mul for Dec32 {
    type Output = Dec32;

    fn mul(self, rhs: Dec32) -> (r: Dec32)
        ensures
            r == dec_mul(self, rhs),
    {
        let p: i64 = wide_mul(self.0, rhs.0);
        Dec32(shr16(p) as i32)
    }
}

impl vstd::std_specs::ops::MulSpecImpl for Dec32 {
    open spec fn obeys_mul_spec() -> bool {
        true
    }

    open spec fn mul_req(self, rhs: Dec32) -> bool {
        true
    }

    open spec fn mul_spec(self, rhs: Dec32) -> Dec32 {
        dec_mul(self, rhs)
    }
}

impl core::ops::Div for Dec32 {
    type Output = Dec32;

    fn div(self, rhs: Dec32) -> (r: Dec32)
        ensures
            r == dec_div(self, rhs),
    {
        trunc_div_dec(self, rhs)
    }
}

impl vstd::std_specs::ops::DivSpecImpl for Dec32 {
    open spec fn obeys_div_spec() -> bool {
        true
    }

    open spec fn div_req(self, rhs: Dec32) -> bool {
        rhs.0 != 0
    }

    open spec fn div_spec(self, rhs: Dec32) -> Dec32 {
        dec_div(self, rhs)
    }
}

impl core::ops::Neg for Dec32 {
    type Output = Dec32;

    fn neg(self) -> (r: Dec32)
        ensures
            r == dec_neg(self),
    {
        Dec32((-(self.0 as i64)) as i32)
    }
}

impl vstd::std_specs::ops::NegSpecImpl for Dec32 {
    open spec fn obeys_neg_spec() -> bool {
        true
    }

    open spec fn neg_req(self) -> bool {
        true
    }

    open spec fn neg_spec(self) -> Dec32 {
        dec_neg(self)
    }
}

fn trunc_div_dec(a: Dec32, b: Dec32) -> (r: Dec32)
    requires
        b.0 != 0,
    ensures
        r == dec_div(a, b),
{
    let n: i64 = a.0 as i64 * 65536;
    Dec32(trunc_div(n, b.0 as i64) as i32)
}

} // verus!
