//! Errors of the virtual machine.
use vstd::prelude::*;

verus! {

/// Errors raised while executing opcodes.
#[derive(Clone, Copy, Debug, PartialEq, Eq, Structural)]
pub enum LpsVmError {
    /// A push found the stack full; `sp` is the stack pointer at that moment.
    StackOverflow { sp: usize },
    /// An operation needed `required` values but the stack held `actual`.
    StackUnderflow { required: usize, actual: usize },
    /// A division or modulo by zero.
    DivisionByZero,
}

} // verus!
