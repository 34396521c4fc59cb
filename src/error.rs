//! Failures of loading and of execution.
use vstd::prelude::*;

verus! {

/// Everything that stops the machine: a program that cannot be loaded, or
/// one that does something the instruction set leaves undefined.
#[derive(Debug, Clone, Copy, PartialEq, Eq, Structural)]
pub enum AppError {
    /// The program image does not fit between 0x200 and the end of memory.
    ProgramTooLarge { len: usize },
    /// The 16-bit word at the program counter is no instruction.
    IllegalOpcode { opcode: u16 },
    /// A call with all sixteen return slots in use.
    StackOverflow,
    /// A return with no return address on the stack.
    StackUnderflow,
    /// A memory access starting at `address` runs past the end of memory.
    AddressOutOfRange { address: usize },
    /// A key instruction names a key outside 0x0..=0xF.
    InvalidKey { key: u8 },
}

} // verus!
