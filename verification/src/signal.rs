//! The signals that the fault core handles.

use vstd::prelude::*;
use nix::sys::signal::Signal;

verus! {

/// A signal, as far as the fault core tells signals apart.
#[derive(Clone, Copy, Debug, PartialEq, Eq, Structural)]
pub enum SignalKind {
    /// SIGTRAP: a breakpoint instruction.
    Trap,
    /// SIGSEGV: an invalid memory access.
    Segv,
    /// SIGBUS: a bus error.
    Bus,
    /// SIGFPE: an arithmetic error.
    Fpe,
    /// SIGILL: an illegal instruction.
    Ill,
    /// SIGINT: the external interrupt.
    Int,
    /// Any other signal.
    Other,
}

/// Number of the highest signal plus one.
pub const NSIG: i32 = 32;

/// Number of the external interrupt, on every operating system.
pub const SIGINT: i32 = 2;

/// Number of the illegal instruction signal, on every operating system.
pub const SIGILL: i32 = 4;

/// Number of the arithmetic error signal, on every operating system.
pub const SIGFPE: i32 = 8;

/// Number of the invalid memory access signal, on every operating system.
pub const SIGSEGV: i32 = 11;

/// What holds on every operating system of the kind of the signal with
/// number `signum`.
///
/// A number outside `1..32` names no signal and counts as any other signal
/// does. The external interrupt, the illegal instruction, the arithmetic
/// error and the invalid memory access have the same number everywhere. The
/// breakpoint trap and the bus error have one of a few numbers, which of
/// them depends on the operating system.
pub open spec fn may_name(signum: i32, kind: SignalKind) -> bool {
    &&& !(0 < signum < NSIG) ==> kind == SignalKind::Other
    &&& signum == SIGINT <==> kind == SignalKind::Int
    &&& signum == SIGILL <==> kind == SignalKind::Ill
    &&& signum == SIGFPE <==> kind == SignalKind::Fpe
    &&& signum == SIGSEGV <==> kind == SignalKind::Segv
    &&& kind == SignalKind::Trap ==> signum == 5 || signum == 22
    &&& kind == SignalKind::Bus ==> signum == 7 || signum == 10 || signum == 30
}

/// Calls `nix::sys::signal::Signal::from_c_int` and says which of the
/// signals that the fault core knows the number stands for.
///
/// The call succeeds exactly for the numbers from 1 to 31, and yields the
/// signal whose number in the C library is the given one. The C library
/// gives the external interrupt the number 2, the illegal instruction 4,
/// the arithmetic error 8 and the invalid memory access 11 on every
/// operating system. It gives the breakpoint trap 5 or 22 and the bus error
/// 7, 10 or 30, depending on the operating system, so of these only the
/// numbers that they can have are claimed.
#[verifier::external_body]
pub(crate) fn signal_from_c_int(signum: i32) -> (kind: Option<SignalKind>)
    ensures
        kind is Some <==> 0 < signum < NSIG,
        signum == SIGINT <==> kind == Some(SignalKind::Int),
        signum == SIGILL <==> kind == Some(SignalKind::Ill),
        signum == SIGFPE <==> kind == Some(SignalKind::Fpe),
        signum == SIGSEGV <==> kind == Some(SignalKind::Segv),
        kind == Some(SignalKind::Trap) ==> signum == 5 || signum == 22,
        kind == Some(SignalKind::Bus) ==> signum == 7 || signum == 10 || signum == 30,
{
    match Signal::from_c_int(signum) {
        Ok(Signal::SIGTRAP) => Some(SignalKind::Trap),
        Ok(Signal::SIGSEGV) => Some(SignalKind::Segv),
        Ok(Signal::SIGBUS) => Some(SignalKind::Bus),
        Ok(Signal::SIGFPE) => Some(SignalKind::Fpe),
        Ok(Signal::SIGILL) => Some(SignalKind::Ill),
        Ok(Signal::SIGINT) => Some(SignalKind::Int),
        Ok(_) => Some(SignalKind::Other),
        Err(_) => None,
    }
}

/// The kind of the signal that the kernel delivered as number `signum`. A
/// number that names no signal counts as any other signal does.
pub fn signal_kind(signum: i32) -> (kind: SignalKind)
    ensures
        may_name(signum, kind),
        signum == SIGINT ==> kind == SignalKind::Int,
        signum == SIGILL ==> kind == SignalKind::Ill,
        signum == SIGFPE ==> kind == SignalKind::Fpe,
        signum == SIGSEGV ==> kind == SignalKind::Segv,
{
    match signal_from_c_int(signum) {
        Some(kind) => kind,
        None => SignalKind::Other,
    }
}

} // verus!
