//! The state that each guest-entering thread keeps for itself.

use vstd::prelude::*;
use std::collections::HashMap;
use crate::code_version::CodeVersion;
use crate::error::RuntimeError;

verus! {

/// Length of a jump buffer, in 32-bit words.
pub const SETJMP_BUFFER_LEN: usize = 128;

/// Breakpoint callbacks by code address. A callback is named by the handle
/// under which the host keeps it.
pub type BreakpointMap = HashMap<usize, usize>;

/// The part of an instance context that the fault core reads.
#[derive(Clone, Copy, Debug, PartialEq, Eq, Structural)]
pub struct Ctx {
    /// Address of the instance context.
    pub addr: usize,
    /// The instance's copy of the address of the interrupt sentinel page.
    pub interrupt_signal_mem: usize,
}

/// A store for boundary register preservation: the callee-saved registers
/// as they were when the host last entered guest code.
#[derive(Clone, Copy, Debug, PartialEq, Eq, Structural)]
pub struct BoundaryRegisterPreservation {
    /// R15.
    pub r15: u64,
    /// R14.
    pub r14: u64,
    /// R13.
    pub r13: u64,
    /// R12.
    pub r12: u64,
    /// RBX.
    pub rbx: u64,
}

impl Default for BoundaryRegisterPreservation {
    fn default() -> (regs: Self)
        ensures
            regs == (BoundaryRegisterPreservation { r15: 0, r14: 0, r13: 0, r12: 0, rbx: 0 }),
    {
        BoundaryRegisterPreservation { r15: 0, r14: 0, r13: 0, r12: 0, rbx: 0 }
    }
}

/// The target of a non-local return: at most one is active per thread, and
/// the one it replaced is put back when its scope ends.
#[derive(Debug, PartialEq, Eq)]
pub struct UnwindInfo<I, U> {
    /// Jump buffer. The host's non-local jump fills and consumes it; the
    /// core only keeps it with the frame.
    pub jmpbuf: [i32; 128],
    /// Breakpoint callbacks that are active in the scope.
    pub breakpoints: Option<BreakpointMap>,
    /// The error that an unwind carries out of the scope.
    pub payload: Option<RuntimeError<I, U>>,
}

/// State of one thread.
#[derive(Debug, PartialEq, Eq)]
pub struct ThreadState<I, U> {
    /// The active unwind frame; present exactly within the scope of a
    /// [`catch_unsafe_unwind`](crate::unwind::catch_unsafe_unwind).
    pub unwind: Option<UnwindInfo<I, U>>,
    /// The instance context that guest code is running with.
    pub current_ctx: Option<Ctx>,
    /// The code versions that the thread has entered, oldest first.
    pub code_versions: Vec<CodeVersion>,
    /// Whether the most recent fault was caused by an external interrupt.
    pub was_sigint_triggered: bool,
    /// The thread's boundary register preservation area.
    pub boundary_register_preservation: BoundaryRegisterPreservation,
}

/// The handle of the callback that `breakpoints` registers at `addr`.
pub open spec fn registered(breakpoints: Option<BreakpointMap>, addr: usize) -> Option<usize> {
    match breakpoints {
        Some(map) => if map@.contains_key(addr) {
            Some(map@[addr])
        } else {
            None
        },
        None => None,
    }
}

impl<I, U> UnwindInfo<I, U> {
    /// A fresh frame: a zeroed jump buffer, the given breakpoints, and no
    /// payload.
    pub open spec fn fresh(breakpoints: Option<BreakpointMap>) -> Self {
        UnwindInfo {
            jmpbuf: vstd::array::spec_array_fill_for_copy_type::<i32, 128>(0i32),
            breakpoints,
            payload: None,
        }
    }

    /// The frame with `error` as its payload.
    pub open spec fn with_payload(self, error: RuntimeError<I, U>) -> Self {
        UnwindInfo { payload: Some(error), ..self }
    }

    /// Makes a fresh frame.
    pub fn new(breakpoints: Option<BreakpointMap>) -> (frame: Self)
        ensures
            frame == Self::fresh(breakpoints),
    {
        UnwindInfo { jmpbuf: [0i32; 128], breakpoints, payload: None }
    }
}

impl<I, U> ThreadState<I, U> {
    /// Whether the thread is within the scope of a catch.
    pub open spec fn in_catch_scope(self) -> bool {
        self.unwind is Some
    }

    /// Whether the active frame holds a payload.
    pub open spec fn has_payload(self) -> bool {
        self.unwind is Some && self.unwind->0.payload is Some
    }

    /// The breakpoint map of the active frame.
    pub open spec fn breakpoints(self) -> Option<BreakpointMap> {
        match self.unwind {
            Some(frame) => frame.breakpoints,
            None => None,
        }
    }

    /// The handle of the breakpoint callback that is registered at `addr`
    /// in the active frame.
    pub open spec fn breakpoint_at(self, addr: usize) -> Option<usize> {
        registered(self.breakpoints(), addr)
    }

    /// The state on entry to a catch scope with the given breakpoints: a
    /// fresh frame is active.
    pub open spec fn entered(self, breakpoints: Option<BreakpointMap>) -> Self {
        self.with_unwind(Some(UnwindInfo::fresh(breakpoints)))
    }

    /// The state with `frame` as its unwind frame.
    pub open spec fn with_unwind(self, frame: Option<UnwindInfo<I, U>>) -> Self {
        ThreadState { unwind: frame, ..self }
    }

    /// The state with `ctx` as its current instance context.
    pub open spec fn with_ctx(self, ctx: Option<Ctx>) -> Self {
        ThreadState { current_ctx: ctx, ..self }
    }

    /// The state of a thread that has not entered guest code: no unwind
    /// frame, no instance context, no code versions, the interrupt flag
    /// down and the preserved registers zero.
    pub fn new() -> (thread: Self)
        ensures
            thread.unwind is None,
            thread.current_ctx is None,
            thread.code_versions@ == Seq::<CodeVersion>::empty(),
            !thread.was_sigint_triggered,
            thread.boundary_register_preservation == (BoundaryRegisterPreservation {
                r15: 0,
                r14: 0,
                r13: 0,
                r12: 0,
                rbx: 0,
            }),
    {
        ThreadState {
            unwind: None,
            current_ctx: None,
            code_versions: Vec::new(),
            was_sigint_triggered: false,
            boundary_register_preservation: BoundaryRegisterPreservation::default(),
        }
    }
}

/// Gets the thread's `BoundaryRegisterPreservation`, which generated code
/// fills and restores at the boundary between host and guest.
pub fn get_boundary_register_preservation<I, U>(
    thread: &mut ThreadState<I, U>,
) -> (area: &mut BoundaryRegisterPreservation)
    ensures
        *area == old(thread).boundary_register_preservation,
        *final(thread) == (ThreadState {
            boundary_register_preservation: *final(area),
            ..*old(thread)
        }),
{
    &mut thread.boundary_register_preservation
}

/// Returns a boolean indicating if SIGINT triggered the fault.
pub fn was_sigint_triggered_fault<I, U>(thread: &ThreadState<I, U>) -> (triggered: bool)
    ensures
        triggered == thread.was_sigint_triggered,
{
    thread.was_sigint_triggered
}

/// Pushes a new `CodeVersion` to the current code versions.
pub fn push_code_version<I, U>(thread: &mut ThreadState<I, U>, version: CodeVersion)
    ensures
        final(thread).code_versions@ == old(thread).code_versions@.push(version),
        *final(thread) == (ThreadState { code_versions: final(thread).code_versions, ..*old(thread) }),
{
    thread.code_versions.push(version);
}

/// Pops a `CodeVersion` from the current code versions: the most recently
/// pushed one, or `None` where there is none.
pub fn pop_code_version<I, U>(thread: &mut ThreadState<I, U>) -> (version: Option<CodeVersion>)
    ensures
        old(thread).code_versions@.len() == 0 ==> version is None
            && final(thread).code_versions@ == old(thread).code_versions@,
        old(thread).code_versions@.len() > 0 ==> version == Some(old(thread).code_versions@.last())
            && final(thread).code_versions@ == old(thread).code_versions@.drop_last(),
        *final(thread) == (ThreadState { code_versions: final(thread).code_versions, ..*old(thread) }),
{
    thread.code_versions.pop()
}

/// A code version that is pushed and then popped comes back, and the code
/// versions are as before.
pub proof fn lemma_push_then_pop(versions: Seq<CodeVersion>, version: CodeVersion)
    ensures
        versions.push(version).last() == version,
        versions.push(version).drop_last() == versions,
{
}

} // verus!
