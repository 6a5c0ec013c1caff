//! Texture sampling opcodes (placeholders that return fixed colors).
use vstd::prelude::*;

use super::replaced;
use crate::dec32::dec32::{Dec32, HALF_RAW, ONE_RAW};
use crate::vm::error::LpsVmError;
use crate::vm::value_stack::{overflow, underflow, unchanged, ValueStack};

verus! {

/// Pop the UV coordinates; push a red value of 0.5 (no texture is read).
pub fn exec_texture_sample_r(stack: &mut ValueStack, _texture_idx: u32) -> (r: Result<(), LpsVmError>)
        requires
            old(stack).wf(),
        ensures
            final(stack).wf(),
            final(stack).limit() == old(stack).limit(),
            old(stack).depth() >= 2 ==> r == Ok::<(), LpsVmError>(())
                && replaced(*old(stack), *final(stack), 2, seq![HALF_RAW]),
            old(stack).depth() < 2 ==> r == Err::<(), LpsVmError>(underflow(2, old(stack).depth()))
                && unchanged(*old(stack), *final(stack)),
{
    let (_u, _v) = stack.pop2()?;
    stack.push_dec32(Dec32::half())?;
    Ok(())
}

/// Pop the UV coordinates; push the color (0.5, 0.5, 0.5, 1.0) (no texture is read).
pub fn exec_texture_sample_rgba(stack: &mut ValueStack, _texture_idx: u32) -> (r: Result<(), LpsVmError>)
        requires
            old(stack).wf(),
        ensures
            final(stack).wf(),
            final(stack).limit() == old(stack).limit(),
            old(stack).depth() >= 2 && old(stack).depth() + 2 <= old(stack).limit() ==> r == Ok::<(), LpsVmError>(())
                && replaced(*old(stack), *final(stack), 2, seq![HALF_RAW, HALF_RAW, HALF_RAW, ONE_RAW]),
            old(stack).depth() >= 2 && old(stack).depth() + 2 > old(stack).limit()
                ==> r == Err::<(), LpsVmError>(overflow((old(stack).depth() - 2) as nat))
                && final(stack).depth() == old(stack).depth() - 2 && final(stack).slots() == old(stack).slots(),
            old(stack).depth() < 2 ==> r == Err::<(), LpsVmError>(underflow(2, old(stack).depth()))
                && unchanged(*old(stack), *final(stack)),
{
    let (_u, _v) = stack.pop2()?;
    stack.push4(Dec32::half().0, Dec32::half().0, Dec32::half().0, Dec32::one().0)?;
    Ok(())
}

} // verus!
