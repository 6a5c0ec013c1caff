//! The virtual machine of the shading language: its value stack and opcodes.
pub mod error;
pub mod opcodes;
pub mod value_stack;

pub use error::LpsVmError;
pub use value_stack::ValueStack;
