//! Comparison opcodes for fixed-point values: they push 1.0 for true and 0 for false.
use vstd::prelude::*;

use super::replaced;
use crate::dec32::dec32::{Dec32, ONE_RAW};
use crate::vm::error::LpsVmError;
use crate::vm::value_stack::{underflow, unchanged, ValueStack};

verus! {

/// Pop `b`, `a`; push 1.0 if `a > b`, else 0.
pub fn exec_greater_dec32(stack: &mut ValueStack) -> (r: Result<(), LpsVmError>)
        requires
            old(stack).wf(),
        ensures
            final(stack).wf(),
            final(stack).limit() == old(stack).limit(),
            old(stack).depth() >= 2 ==> r == Ok::<(), LpsVmError>(())
                && replaced(*old(stack), *final(stack), 2, seq![(if old(stack).peek(2) > old(stack).peek(1) { ONE_RAW } else { 0i32 })]),
            old(stack).depth() < 2 ==> r == Err::<(), LpsVmError>(underflow(2, old(stack).depth()))
                && unchanged(*old(stack), *final(stack)),
{
    let (a, b) = stack.pop2()?;
    let result = if Dec32(a).0 > Dec32(b).0 {
        Dec32::one().0
    } else {
        0
    };
    stack.push_int32(result)?;
    Ok(())
}

/// Pop `b`, `a`; push 1.0 if `a < b`, else 0.
pub fn exec_less_dec32(stack: &mut ValueStack) -> (r: Result<(), LpsVmError>)
        requires
            old(stack).wf(),
        ensures
            final(stack).wf(),
            final(stack).limit() == old(stack).limit(),
            old(stack).depth() >= 2 ==> r == Ok::<(), LpsVmError>(())
                && replaced(*old(stack), *final(stack), 2, seq![(if old(stack).peek(2) < old(stack).peek(1) { ONE_RAW } else { 0i32 })]),
            old(stack).depth() < 2 ==> r == Err::<(), LpsVmError>(underflow(2, old(stack).depth()))
                && unchanged(*old(stack), *final(stack)),
{
    let (a, b) = stack.pop2()?;
    let result = if Dec32(a).0 < Dec32(b).0 {
        Dec32::one().0
    } else {
        0
    };
    stack.push_int32(result)?;
    Ok(())
}

/// Pop `b`, `a`; push 1.0 if `a >= b`, else 0.
pub fn exec_greater_eq_dec32(stack: &mut ValueStack) -> (r: Result<(), LpsVmError>)
        requires
            old(stack).wf(),
        ensures
            final(stack).wf(),
            final(stack).limit() == old(stack).limit(),
            old(stack).depth() >= 2 ==> r == Ok::<(), LpsVmError>(())
                && replaced(*old(stack), *final(stack), 2, seq![(if old(stack).peek(2) >= old(stack).peek(1) { ONE_RAW } else { 0i32 })]),
            old(stack).depth() < 2 ==> r == Err::<(), LpsVmError>(underflow(2, old(stack).depth()))
                && unchanged(*old(stack), *final(stack)),
{
    let (a, b) = stack.pop2()?;
    let result = if Dec32(a).0 >= Dec32(b).0 {
        Dec32::one().0
    } else {
        0
    };
    stack.push_int32(result)?;
    Ok(())
}

/// Pop `b`, `a`; push 1.0 if `a <= b`, else 0.
pub fn exec_less_eq_dec32(stack: &mut ValueStack) -> (r: Result<(), LpsVmError>)
        requires
            old(stack).wf(),
        ensures
            final(stack).wf(),
            final(stack).limit() == old(stack).limit(),
            old(stack).depth() >= 2 ==> r == Ok::<(), LpsVmError>(())
                && replaced(*old(stack), *final(stack), 2, seq![(if old(stack).peek(2) <= old(stack).peek(1) { ONE_RAW } else { 0i32 })]),
            old(stack).depth() < 2 ==> r == Err::<(), LpsVmError>(underflow(2, old(stack).depth()))
                && unchanged(*old(stack), *final(stack)),
{
    let (a, b) = stack.pop2()?;
    let result = if Dec32(a).0 <= Dec32(b).0 {
        Dec32::one().0
    } else {
        0
    };
    stack.push_int32(result)?;
    Ok(())
}

/// Pop `b`, `a`; push 1.0 if `a == b`, else 0.
pub fn exec_eq_dec32(stack: &mut ValueStack) -> (r: Result<(), LpsVmError>)
        requires
            old(stack).wf(),
        ensures
            final(stack).wf(),
            final(stack).limit() == old(stack).limit(),
            old(stack).depth() >= 2 ==> r == Ok::<(), LpsVmError>(())
                && replaced(*old(stack), *final(stack), 2, seq![(if old(stack).peek(2) == old(stack).peek(1) { ONE_RAW } else { 0i32 })]),
            old(stack).depth() < 2 ==> r == Err::<(), LpsVmError>(underflow(2, old(stack).depth()))
                && unchanged(*old(stack), *final(stack)),
{
    let (a, b) = stack.pop2()?;
    let result = if a == b {
        Dec32::one().0
    } else {
        0
    };
    stack.push_int32(result)?;
    Ok(())
}

/// Pop `b`, `a`; push 1.0 if `a != b`, else 0.
pub fn exec_not_eq_dec32(stack: &mut ValueStack) -> (r: Result<(), LpsVmError>)
        requires
            old(stack).wf(),
        ensures
            final(stack).wf(),
            final(stack).limit() == old(stack).limit(),
            old(stack).depth() >= 2 ==> r == Ok::<(), LpsVmError>(())
                && replaced(*old(stack), *final(stack), 2, seq![(if old(stack).peek(2) != old(stack).peek(1) { ONE_RAW } else { 0i32 })]),
            old(stack).depth() < 2 ==> r == Err::<(), LpsVmError>(underflow(2, old(stack).depth()))
                && unchanged(*old(stack), *final(stack)),
{
    let (a, b) = stack.pop2()?;
    let result = if a != b {
        Dec32::one().0
    } else {
        0
    };
    stack.push_int32(result)?;
    Ok(())
}

} // verus!
