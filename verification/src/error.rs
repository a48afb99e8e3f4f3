//! Errors that travel through the unwind channel.

use vstd::prelude::*;

verus! {

/// Trap codes that a code generator attaches to trapping instructions.
#[derive(Clone, Copy, Debug, PartialEq, Eq, Structural)]
pub enum ExceptionCode {
    /// An `unreachable` instruction was executed.
    Unreachable,
    /// An indirect call found a function of another signature.
    IncorrectCallIndirectSignature,
    /// A memory access fell outside the linear memory.
    MemoryOutOfBounds,
    /// An indirect call used an index outside the table.
    CallIndirectOutOfBounds,
    /// An arithmetic instruction had no defined result.
    IllegalArithmetic,
    /// An integer was divided by zero.
    IntegerDivisionByZero,
    /// An atomic access was misaligned.
    MisalignedAtomicAccess,
}

/// Why an invocation of guest code failed.
#[derive(Clone, Copy, Debug, PartialEq, Eq, Structural)]
pub enum InvokeError {
    /// A machine trap that an exception table classifies.
    TrapCode {
        /// The trap code found in the exception table.
        code: ExceptionCode,
        /// Source location of the trapping instruction; exception tables
        /// carry none, so this is always zero.
        srcloc: u32,
    },
    /// A trap that no table classifies.
    FailedWithNoError,
}

/// What an unwind carries back to the catcher.
///
/// `I` is the host's resumable snapshot of a suspended instance and `U` is
/// what its breakpoint callbacks fail with; the core hands both through
/// untouched.
#[derive(Clone, Debug, PartialEq, Eq)]
pub enum RuntimeError<I, U> {
    /// The invocation failed.
    InvokeError(InvokeError),
    /// The guest was suspended at a safepoint; the image resumes it.
    InstanceImage(I),
    /// An error of the host's own, raised by a breakpoint callback.
    User(U),
}

/// The error of a trap whose exception table lookup gave `code`.
pub open spec fn trap_error<I, U>(code: Option<ExceptionCode>) -> RuntimeError<I, U> {
    match code {
        Some(code) => RuntimeError::InvokeError(InvokeError::TrapCode { code, srcloc: 0 }),
        None => RuntimeError::InvokeError(InvokeError::FailedWithNoError),
    }
}

} // verus!
