use vstd::prelude::*;

verus! {

/// A fatal emulation condition: the machine cannot take the step it was asked
/// to take, and the hosting loop must stop or restart the session. 8-bit
/// register wraparound is ordinary domain behaviour and never an error; these
/// cover dispatch failure and machine-limit violations.
#[derive(Debug, Clone, Copy, PartialEq, Eq, Structural)]
pub enum Error {
    /// No execution routine is defined for this instruction word.
    UnknownInstruction(u8, u8),
    /// `call` with all sixteen stack slots already in use.
    StackOverflow,
    /// `return` with the stack pointer already at its floor.
    StackUnderflow,
    /// The program counter cannot reach or leave the 4096 addressable bytes.
    ProgramCounterOutOfRange,
    /// A jump or call target below 2: the uniform +2 advance of the cycle
    /// driver cannot be pre-compensated.
    JumpTargetOutOfRange,
    /// A memory-indexed instruction reaches past the 4096 addressable bytes.
    MemoryOutOfRange,
    /// `register_i += Vx` past the 16-bit address register's range.
    RegisterOverflow,
    /// A key-skip instruction whose register holds a value past the sixteen
    /// logical keys.
    KeyOutOfRange,
    /// A program image larger than the 3584 bytes of program space.
    ProgramTooLarge,
}

} // verus!
