//! Advanced fixed-point opcodes: trigonometry, interpolation, noise.
use vstd::prelude::*;

use super::replaced;
use crate::dec32::advanced::{atan, atan2, atan2_spec, atan_spec, fract, modulo, modulo_spec, pow, pow_spec};
use crate::dec32::clamping::{saturate, sign, sign_spec};
use crate::dec32::dec32::{dec_clamp, dec_div, dec_floor_int, dec_frac, dec_sub, Dec32, ONE_RAW};
use crate::dec32::interpolation::{lerp, lerp_spec, smoothstep, smoothstep_spec, step, step_spec};
use crate::dec32::noise::{perlin3, perlin3_spec};
use crate::dec32::trig::{tan, tan_spec};
use crate::vm::error::LpsVmError;
use crate::vm::value_stack::{underflow, unchanged, ValueStack};

verus! {

/// Pop `a`; push `tan(a)`.
pub fn exec_tan_dec32(stack: &mut ValueStack) -> (r: Result<(), LpsVmError>)
        requires
            old(stack).wf(),
        ensures
            final(stack).wf(),
            final(stack).limit() == old(stack).limit(),
            old(stack).depth() >= 1 ==> r == Ok::<(), LpsVmError>(())
                && replaced(*old(stack), *final(stack), 1, seq![tan_spec(Dec32(old(stack).peek(1))).0]),
            old(stack).depth() < 1 ==> r == Err::<(), LpsVmError>(underflow(1, old(stack).depth()))
                && unchanged(*old(stack), *final(stack)),
{
    let a = stack.pop_dec32()?;
    stack.push_dec32(tan(a))?;
    Ok(())
}

/// Pop `a`; push `atan(a)`.
pub fn exec_atan_dec32(stack: &mut ValueStack) -> (r: Result<(), LpsVmError>)
        requires
            old(stack).wf(),
            old(stack).depth() >= 1 ==> old(stack).peek(1) != i32::MIN,
        ensures
            final(stack).wf(),
            final(stack).limit() == old(stack).limit(),
            old(stack).depth() >= 1 ==> r == Ok::<(), LpsVmError>(())
                && replaced(*old(stack), *final(stack), 1, seq![atan_spec(Dec32(old(stack).peek(1))).0]),
            old(stack).depth() < 1 ==> r == Err::<(), LpsVmError>(underflow(1, old(stack).depth()))
                && unchanged(*old(stack), *final(stack)),
{
    let a = stack.pop_dec32()?;
    stack.push_dec32(atan(a))?;
    Ok(())
}

/// Pop `x`, `y`; push `atan2(y, x)`.
pub fn exec_atan2_dec32(stack: &mut ValueStack) -> (r: Result<(), LpsVmError>)
        requires
            old(stack).wf(),
            old(stack).depth() >= 2 && old(stack).peek(1) != 0 && old(stack).peek(2) != 0
                ==> dec_div(Dec32(old(stack).peek(2)), Dec32(old(stack).peek(1))).0 != i32::MIN,
        ensures
            final(stack).wf(),
            final(stack).limit() == old(stack).limit(),
            old(stack).depth() >= 2 ==> r == Ok::<(), LpsVmError>(())
                && replaced(*old(stack), *final(stack), 2, seq![atan2_spec(Dec32(old(stack).peek(2)), Dec32(old(stack).peek(1))).0]),
            old(stack).depth() < 2 ==> r == Err::<(), LpsVmError>(underflow(2, old(stack).depth()))
                && unchanged(*old(stack), *final(stack)),
{
    let (y, x) = stack.pop2()?;
    let result = atan2(Dec32(y), Dec32(x));
    stack.push_dec32(result)?;
    Ok(())
}

/// Pop `a`; push its fractional part.
pub fn exec_fract_dec32(stack: &mut ValueStack) -> (r: Result<(), LpsVmError>)
        requires
            old(stack).wf(),
        ensures
            final(stack).wf(),
            final(stack).limit() == old(stack).limit(),
            old(stack).depth() >= 1 ==> r == Ok::<(), LpsVmError>(())
                && replaced(*old(stack), *final(stack), 1, seq![dec_frac(Dec32(old(stack).peek(1))).0]),
            old(stack).depth() < 1 ==> r == Err::<(), LpsVmError>(underflow(1, old(stack).depth()))
                && unchanged(*old(stack), *final(stack)),
{
    let a = stack.pop_dec32()?;
    stack.push_dec32(fract(a))?;
    Ok(())
}

/// Pop `y`, `x`; push `x mod y`. A zero divisor is an error (after the pops).
pub fn exec_mod_dec32(stack: &mut ValueStack) -> (r: Result<(), LpsVmError>)
    requires
        old(stack).wf(),
    ensures
        final(stack).wf(),
        final(stack).limit() == old(stack).limit(),
        old(stack).depth() >= 2 && old(stack).peek(1) != 0 ==> r == Ok::<(), LpsVmError>(())
            && replaced(
            *old(stack),
            *final(stack),
            2,
            seq![modulo_spec(Dec32(old(stack).peek(2)), Dec32(old(stack).peek(1))).0],
        ),
        old(stack).depth() >= 2 && old(stack).peek(1) == 0 ==> r == Err::<(), LpsVmError>(
            LpsVmError::DivisionByZero,
        ) && final(stack).depth() == old(stack).depth() - 2 && final(stack).slots() == old(stack).slots(),
        old(stack).depth() < 2 ==> r == Err::<(), LpsVmError>(underflow(2, old(stack).depth()))
            && unchanged(*old(stack), *final(stack)),
{
    let (x, y) = stack.pop2()?;
    if y == 0 {
        return Err(LpsVmError::DivisionByZero);
    }
    let result = modulo(Dec32(x), Dec32(y));
    stack.push_dec32(result)?;
    Ok(())
}

/// Pop `exponent`, `base`; push `base^floor(exponent)`.
pub fn exec_pow_dec32(stack: &mut ValueStack) -> (r: Result<(), LpsVmError>)
        requires
            old(stack).wf(),
        ensures
            final(stack).wf(),
            final(stack).limit() == old(stack).limit(),
            old(stack).depth() >= 2 ==> r == Ok::<(), LpsVmError>(())
                && replaced(*old(stack), *final(stack), 2, seq![pow_spec(Dec32(old(stack).peek(2)), dec_floor_int(Dec32(old(stack).peek(1)))).0]),
            old(stack).depth() < 2 ==> r == Err::<(), LpsVmError>(underflow(2, old(stack).depth()))
                && unchanged(*old(stack), *final(stack)),
{
    let (base, exponent) = stack.pop2()?;
    let result = pow(Dec32(base), Dec32(exponent).to_i32());
    stack.push_dec32(result)?;
    Ok(())
}

/// Pop `a`; push `sign(a)`.
pub fn exec_sign_dec32(stack: &mut ValueStack) -> (r: Result<(), LpsVmError>)
        requires
            old(stack).wf(),
        ensures
            final(stack).wf(),
            final(stack).limit() == old(stack).limit(),
            old(stack).depth() >= 1 ==> r == Ok::<(), LpsVmError>(())
                && replaced(*old(stack), *final(stack), 1, seq![sign_spec(Dec32(old(stack).peek(1))).0]),
            old(stack).depth() < 1 ==> r == Err::<(), LpsVmError>(underflow(1, old(stack).depth()))
                && unchanged(*old(stack), *final(stack)),
{
    let a = stack.pop_dec32()?;
    stack.push_dec32(sign(a))?;
    Ok(())
}

/// Pop `a`; push `a` clamped to `0..=1`.
pub fn exec_saturate_dec32(stack: &mut ValueStack) -> (r: Result<(), LpsVmError>)
        requires
            old(stack).wf(),
        ensures
            final(stack).wf(),
            final(stack).limit() == old(stack).limit(),
            old(stack).depth() >= 1 ==> r == Ok::<(), LpsVmError>(())
                && replaced(*old(stack), *final(stack), 1, seq![dec_clamp(Dec32(old(stack).peek(1)), Dec32(0), Dec32(ONE_RAW)).0]),
            old(stack).depth() < 1 ==> r == Err::<(), LpsVmError>(underflow(1, old(stack).depth()))
                && unchanged(*old(stack), *final(stack)),
{
    let a = stack.pop_dec32()?;
    stack.push_dec32(saturate(a))?;
    Ok(())
}

/// Pop `max`, `min`, `x`; push `x` clamped to `min..=max`.
pub fn exec_clamp_dec32(stack: &mut ValueStack) -> (r: Result<(), LpsVmError>)
        requires
            old(stack).wf(),
        ensures
            final(stack).wf(),
            final(stack).limit() == old(stack).limit(),
            old(stack).depth() >= 3 ==> r == Ok::<(), LpsVmError>(())
                && replaced(*old(stack), *final(stack), 3, seq![dec_clamp(Dec32(old(stack).peek(3)), Dec32(old(stack).peek(2)), Dec32(old(stack).peek(1))).0]),
            old(stack).depth() < 3 ==> r == Err::<(), LpsVmError>(underflow(3, old(stack).depth()))
                && unchanged(*old(stack), *final(stack)),
{
    let (x, min_val, max_val) = stack.pop3()?;
    let result = Dec32(x).clamp(Dec32(min_val), Dec32(max_val));
    stack.push_dec32(result)?;
    Ok(())
}

/// Pop `x`, `edge`; push `step(edge, x)`.
pub fn exec_step_dec32(stack: &mut ValueStack) -> (r: Result<(), LpsVmError>)
        requires
            old(stack).wf(),
        ensures
            final(stack).wf(),
            final(stack).limit() == old(stack).limit(),
            old(stack).depth() >= 2 ==> r == Ok::<(), LpsVmError>(())
                && replaced(*old(stack), *final(stack), 2, seq![step_spec(Dec32(old(stack).peek(2)), Dec32(old(stack).peek(1))).0]),
            old(stack).depth() < 2 ==> r == Err::<(), LpsVmError>(underflow(2, old(stack).depth()))
                && unchanged(*old(stack), *final(stack)),
{
    let (edge, x) = stack.pop2()?;
    let result = step(Dec32(edge), Dec32(x));
    stack.push_dec32(result)?;
    Ok(())
}

/// Pop `t`, `b`, `a`; push `lerp(a, b, t)`.
pub fn exec_lerp_dec32(stack: &mut ValueStack) -> (r: Result<(), LpsVmError>)
        requires
            old(stack).wf(),
        ensures
            final(stack).wf(),
            final(stack).limit() == old(stack).limit(),
            old(stack).depth() >= 3 ==> r == Ok::<(), LpsVmError>(())
                && replaced(*old(stack), *final(stack), 3, seq![lerp_spec(Dec32(old(stack).peek(3)), Dec32(old(stack).peek(2)), Dec32(old(stack).peek(1))).0]),
            old(stack).depth() < 3 ==> r == Err::<(), LpsVmError>(underflow(3, old(stack).depth()))
                && unchanged(*old(stack), *final(stack)),
{
    let (a, b, c) = stack.pop3()?;
    let result = lerp(Dec32(a), Dec32(b), Dec32(c));
    stack.push_dec32(result)?;
    Ok(())
}

/// Pop `x`, `edge1`, `edge0`; push `smoothstep(edge0, edge1, x)`.
pub fn exec_smoothstep_dec32(stack: &mut ValueStack) -> (r: Result<(), LpsVmError>)
        requires
            old(stack).wf(),
            old(stack).depth() >= 3 ==> dec_sub(Dec32(old(stack).peek(2)), Dec32(old(stack).peek(3))).0 != 0,
        ensures
            final(stack).wf(),
            final(stack).limit() == old(stack).limit(),
            old(stack).depth() >= 3 ==> r == Ok::<(), LpsVmError>(())
                && replaced(*old(stack), *final(stack), 3, seq![smoothstep_spec(Dec32(old(stack).peek(3)), Dec32(old(stack).peek(2)), Dec32(old(stack).peek(1))).0]),
            old(stack).depth() < 3 ==> r == Err::<(), LpsVmError>(underflow(3, old(stack).depth()))
                && unchanged(*old(stack), *final(stack)),
{
    let (edge0, edge1, x) = stack.pop3()?;
    let result = smoothstep(Dec32(edge0), Dec32(edge1), Dec32(x));
    stack.push_dec32(result)?;
    Ok(())
}

/// Pop `z`, `y`, `x`; push Perlin noise at `(x, y, z)` with the given octave count.
pub fn exec_perlin3(stack: &mut ValueStack, octaves: u8) -> (r: Result<(), LpsVmError>)
    requires
        old(stack).wf(),
    ensures
        final(stack).wf(),
        final(stack).limit() == old(stack).limit(),
        old(stack).depth() >= 3 ==> r == Ok::<(), LpsVmError>(())
            && replaced(
            *old(stack),
            *final(stack),
            3,
            seq![perlin3_spec(Dec32(old(stack).peek(3)), Dec32(old(stack).peek(2)), Dec32(old(stack).peek(1)), octaves).0],
        ),
        old(stack).depth() < 3 ==> r == Err::<(), LpsVmError>(underflow(3, old(stack).depth()))
            && unchanged(*old(stack), *final(stack)),
{
    let (x, y, z) = stack.pop3()?;
    let result = perlin3(Dec32(x), Dec32(y), Dec32(z), octaves);
    stack.push_dec32(result)?;
    Ok(())
}

} // verus!
