//! Basic fixed-point arithmetic opcodes.
use vstd::prelude::*;

use super::replaced;
use crate::dec32::advanced::{dec_sqrt, sqrt};
use crate::dec32::dec32::{dec_add, dec_div, dec_max, dec_min, dec_mul, dec_neg, dec_sub, iabs, wrap32, Dec32};
use crate::dec32::rounding::{ceil, ceil_spec, floor, floor_spec};
use crate::dec32::trig::{cos, cos_spec, sin, sin_spec};
use crate::vm::error::LpsVmError;
use crate::vm::value_stack::{underflow, unchanged, ValueStack};
use core::ops::Neg;

verus! {

/// Pop `b`, `a`; push `a + b`.
pub fn exec_add_dec32(stack: &mut ValueStack) -> (r: Result<(), LpsVmError>)
        requires
            old(stack).wf(),
        ensures
            final(stack).wf(),
            final(stack).limit() == old(stack).limit(),
            old(stack).depth() >= 2 ==> r == Ok::<(), LpsVmError>(())
                && replaced(*old(stack), *final(stack), 2, seq![dec_add(Dec32(old(stack).peek(2)), Dec32(old(stack).peek(1))).0]),
            old(stack).depth() < 2 ==> r == Err::<(), LpsVmError>(underflow(2, old(stack).depth()))
                && unchanged(*old(stack), *final(stack)),
{
    let (a, b) = stack.pop2()?;
    let result = Dec32(a) + Dec32(b);
    stack.push_dec32(result)?;
    Ok(())
}

/// Pop `b`, `a`; push `a - b`.
pub fn exec_sub_dec32(stack: &mut ValueStack) -> (r: Result<(), LpsVmError>)
        requires
            old(stack).wf(),
        ensures
            final(stack).wf(),
            final(stack).limit() == old(stack).limit(),
            old(stack).depth() >= 2 ==> r == Ok::<(), LpsVmError>(())
                && replaced(*old(stack), *final(stack), 2, seq![dec_sub(Dec32(old(stack).peek(2)), Dec32(old(stack).peek(1))).0]),
            old(stack).depth() < 2 ==> r == Err::<(), LpsVmError>(underflow(2, old(stack).depth()))
                && unchanged(*old(stack), *final(stack)),
{
    let (a, b) = stack.pop2()?;
    let result = Dec32(a) - Dec32(b);
    stack.push_dec32(result)?;
    Ok(())
}

/// Pop `b`, `a`; push `a * b`.
pub fn exec_mul_dec32(stack: &mut ValueStack) -> (r: Result<(), LpsVmError>)
        requires
            old(stack).wf(),
        ensures
            final(stack).wf(),
            final(stack).limit() == old(stack).limit(),
            old(stack).depth() >= 2 ==> r == Ok::<(), LpsVmError>(())
                && replaced(*old(stack), *final(stack), 2, seq![dec_mul(Dec32(old(stack).peek(2)), Dec32(old(stack).peek(1))).0]),
            old(stack).depth() < 2 ==> r == Err::<(), LpsVmError>(underflow(2, old(stack).depth()))
                && unchanged(*old(stack), *final(stack)),
{
    let (a, b) = stack.pop2()?;
    let result = Dec32(a) * Dec32(b);
    stack.push_dec32(result)?;
    Ok(())
}

/// Pop `b`, `a`; push `a / b`. A zero divisor is an error (after the pops).
pub fn exec_div_dec32(stack: &mut ValueStack) -> (r: Result<(), LpsVmError>)
    requires
        old(stack).wf(),
    ensures
        final(stack).wf(),
        final(stack).limit() == old(stack).limit(),
        old(stack).depth() >= 2 && old(stack).peek(1) != 0 ==> r == Ok::<(), LpsVmError>(())
            && replaced(
            *old(stack),
            *final(stack),
            2,
            seq![dec_div(Dec32(old(stack).peek(2)), Dec32(old(stack).peek(1))).0],
        ),
        old(stack).depth() >= 2 && old(stack).peek(1) == 0 ==> r == Err::<(), LpsVmError>(
            LpsVmError::DivisionByZero,
        ) && final(stack).depth() == old(stack).depth() - 2 && final(stack).slots() == old(stack).slots(),
        old(stack).depth() < 2 ==> r == Err::<(), LpsVmError>(underflow(2, old(stack).depth()))
            && unchanged(*old(stack), *final(stack)),
{
    let (a, b) = stack.pop2()?;
    if b == 0 {
        return Err(LpsVmError::DivisionByZero);
    }
    let result = Dec32(a) / Dec32(b);
    stack.push_dec32(result)?;
    Ok(())
}

/// Pop `a`; push `-a`.
pub fn exec_neg_dec32(stack: &mut ValueStack) -> (r: Result<(), LpsVmError>)
        requires
            old(stack).wf(),
        ensures
            final(stack).wf(),
            final(stack).limit() == old(stack).limit(),
            old(stack).depth() >= 1 ==> r == Ok::<(), LpsVmError>(())
                && replaced(*old(stack), *final(stack), 1, seq![dec_neg(Dec32(old(stack).peek(1))).0]),
            old(stack).depth() < 1 ==> r == Err::<(), LpsVmError>(underflow(1, old(stack).depth()))
                && unchanged(*old(stack), *final(stack)),
{
    let a = stack.pop_dec32()?;
    stack.push_dec32(a.neg())?;
    Ok(())
}

/// Pop `a`; push `|a|`.
pub fn exec_abs_dec32(stack: &mut ValueStack) -> (r: Result<(), LpsVmError>)
        requires
            old(stack).wf(),
        ensures
            final(stack).wf(),
            final(stack).limit() == old(stack).limit(),
            old(stack).depth() >= 1 ==> r == Ok::<(), LpsVmError>(())
                && replaced(*old(stack), *final(stack), 1, seq![Dec32(wrap32(iabs(Dec32(old(stack).peek(1)).0 as int))).0]),
            old(stack).depth() < 1 ==> r == Err::<(), LpsVmError>(underflow(1, old(stack).depth()))
                && unchanged(*old(stack), *final(stack)),
{
    let a = stack.pop_dec32()?;
    stack.push_dec32(a.abs())?;
    Ok(())
}

/// Pop `b`, `a`; push `min(a, b)`.
pub fn exec_min_dec32(stack: &mut ValueStack) -> (r: Result<(), LpsVmError>)
        requires
            old(stack).wf(),
        ensures
            final(stack).wf(),
            final(stack).limit() == old(stack).limit(),
            old(stack).depth() >= 2 ==> r == Ok::<(), LpsVmError>(())
                && replaced(*old(stack), *final(stack), 2, seq![dec_min(Dec32(old(stack).peek(2)), Dec32(old(stack).peek(1))).0]),
            old(stack).depth() < 2 ==> r == Err::<(), LpsVmError>(underflow(2, old(stack).depth()))
                && unchanged(*old(stack), *final(stack)),
{
    let (a, b) = stack.pop2()?;
    let result = Dec32(a).min(Dec32(b));
    stack.push_dec32(result)?;
    Ok(())
}

/// Pop `b`, `a`; push `max(a, b)`.
pub fn exec_max_dec32(stack: &mut ValueStack) -> (r: Result<(), LpsVmError>)
        requires
            old(stack).wf(),
        ensures
            final(stack).wf(),
            final(stack).limit() == old(stack).limit(),
            old(stack).depth() >= 2 ==> r == Ok::<(), LpsVmError>(())
                && replaced(*old(stack), *final(stack), 2, seq![dec_max(Dec32(old(stack).peek(2)), Dec32(old(stack).peek(1))).0]),
            old(stack).depth() < 2 ==> r == Err::<(), LpsVmError>(underflow(2, old(stack).depth()))
                && unchanged(*old(stack), *final(stack)),
{
    let (a, b) = stack.pop2()?;
    let result = Dec32(a).max(Dec32(b));
    stack.push_dec32(result)?;
    Ok(())
}

/// Pop `a`; push `sin(a)`.
pub fn exec_sin_dec32(stack: &mut ValueStack) -> (r: Result<(), LpsVmError>)
        requires
            old(stack).wf(),
        ensures
            final(stack).wf(),
            final(stack).limit() == old(stack).limit(),
            old(stack).depth() >= 1 ==> r == Ok::<(), LpsVmError>(())
                && replaced(*old(stack), *final(stack), 1, seq![sin_spec(Dec32(old(stack).peek(1))).0]),
            old(stack).depth() < 1 ==> r == Err::<(), LpsVmError>(underflow(1, old(stack).depth()))
                && unchanged(*old(stack), *final(stack)),
{
    let a = stack.pop_dec32()?;
    stack.push_dec32(sin(a))?;
    Ok(())
}

/// Pop `a`; push `cos(a)`.
pub fn exec_cos_dec32(stack: &mut ValueStack) -> (r: Result<(), LpsVmError>)
        requires
            old(stack).wf(),
        ensures
            final(stack).wf(),
            final(stack).limit() == old(stack).limit(),
            old(stack).depth() >= 1 ==> r == Ok::<(), LpsVmError>(())
                && replaced(*old(stack), *final(stack), 1, seq![cos_spec(Dec32(old(stack).peek(1))).0]),
            old(stack).depth() < 1 ==> r == Err::<(), LpsVmError>(underflow(1, old(stack).depth()))
                && unchanged(*old(stack), *final(stack)),
{
    let a = stack.pop_dec32()?;
    stack.push_dec32(cos(a))?;
    Ok(())
}

/// Pop `a`; push `sqrt(a)`.
pub fn exec_sqrt_dec32(stack: &mut ValueStack) -> (r: Result<(), LpsVmError>)
        requires
            old(stack).wf(),
        ensures
            final(stack).wf(),
            final(stack).limit() == old(stack).limit(),
            old(stack).depth() >= 1 ==> r == Ok::<(), LpsVmError>(())
                && replaced(*old(stack), *final(stack), 1, seq![dec_sqrt(Dec32(old(stack).peek(1))).0]),
            old(stack).depth() < 1 ==> r == Err::<(), LpsVmError>(underflow(1, old(stack).depth()))
                && unchanged(*old(stack), *final(stack)),
{
    let a = stack.pop_dec32()?;
    stack.push_dec32(sqrt(a))?;
    Ok(())
}

/// Pop `a`; push `floor(a)`.
pub fn exec_floor_dec32(stack: &mut ValueStack) -> (r: Result<(), LpsVmError>)
        requires
            old(stack).wf(),
        ensures
            final(stack).wf(),
            final(stack).limit() == old(stack).limit(),
            old(stack).depth() >= 1 ==> r == Ok::<(), LpsVmError>(())
                && replaced(*old(stack), *final(stack), 1, seq![floor_spec(Dec32(old(stack).peek(1))).0]),
            old(stack).depth() < 1 ==> r == Err::<(), LpsVmError>(underflow(1, old(stack).depth()))
                && unchanged(*old(stack), *final(stack)),
{
    let a = stack.pop_dec32()?;
    stack.push_dec32(floor(a))?;
    Ok(())
}

/// Pop `a`; push `ceil(a)`.
pub fn exec_ceil_dec32(stack: &mut ValueStack) -> (r: Result<(), LpsVmError>)
    requires
        old(stack).wf(),
    ensures
        final(stack).wf(),
        final(stack).limit() == old(stack).limit(),
        old(stack).depth() >= 1 ==> r == Ok::<(), LpsVmError>(())
            && replaced(*old(stack), *final(stack), 1, seq![ceil_spec(Dec32(old(stack).peek(1))).0]),
        old(stack).depth() < 1 ==> r == Err::<(), LpsVmError>(underflow(1, old(stack).depth()))
            && unchanged(*old(stack), *final(stack)),
{
    let a = stack.pop_dec32()?;
    stack.push_dec32(ceil(a))?;
    Ok(())
}

} // verus!
