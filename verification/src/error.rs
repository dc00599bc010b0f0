//! The traps an engine can report.
use vstd::prelude::*;

verus! {

/// Everything that can go wrong while the engine runs.
///
/// All of them are recoverable: the engine is left as it was before the
/// instruction that trapped.
#[derive(Debug, PartialEq, Eq, Clone, Copy, Structural)]
pub enum EmbiveError {
    /// The opcode or function fields match no defined instruction.
    InvalidInstruction,
    /// A register index of 32 or more.
    InvalidRegister,
    /// An access outside code and RAM, across the end of a region, or a
    /// store into code.
    InvalidMemory,
    /// `ecall` was executed but the host configured no system-call function.
    NoSyscallFunction,
    /// The step budget of a `run` is used up. The engine can be resumed.
    InstructionLimitReached,
}

} // verus!
