use vstd::prelude::*;

verus! {

/// The ways in which the machine can fail. Each of them is fatal: the
/// operation that reports one leaves the machine as it found it.
#[derive(Clone, Copy, Debug, PartialEq, Eq, Structural)]
pub enum Chip8Error {
    /// A write below the start of program memory.
    MemoryProtectionViolation,
    /// An address past the end of memory.
    AddressOutOfRange,
    /// A call with all sixteen stack slots in use.
    StackOverflow,
    /// A return with an empty stack.
    StackUnderflow,
    /// A program that does not fit between the program start and the end of memory.
    InvalidROMSize,
    /// An instruction word that stands for no instruction.
    UnknownOpcode,
}

} // verus!
