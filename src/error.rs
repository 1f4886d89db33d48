use vstd::prelude::*;

verus! {

/// Why an instruction, or loading a program, failed. Each is fatal to the
/// operation that reported it, which leaves the machine as it found it.
#[derive(Debug, Clone, Copy, PartialEq, Eq, Structural)]
pub enum CpuError {
    /// The fetched word matches no instruction.
    UnknownOpcode(u16),
    /// A memory access reached outside the 4096-byte address space.
    OutOfBounds(usize),
    /// A subroutine call with all sixteen stack slots in use.
    StackOverflow,
    /// A return with an empty call stack.
    StackUnderflow,
    /// The program does not fit between 0x200 and the end of memory.
    ProgramTooLarge,
}

} // verus!
