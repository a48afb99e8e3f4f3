//! The fault dispatcher.
//!
//! A trap handler decodes the fault, hands it to [`signal_trap_handler`]
//! and then does what the returned [`Step`] asks for, until a step tells
//! it to resume the guest or to unwind. A step that needs something from
//! outside (the bytes of the code, a breakpoint callback, the stack walker,
//! the image builder) carries a continuation: the host performs the work
//! and gives the result to the continuation, which yields the next step.
//!
//! A fault is handled in three phases. First the dispatcher looks for an
//! inline breakpoint at the faulting instruction. Then it looks at the
//! signal: a breakpoint trap runs the breakpoint's callback, and an access
//! to the sentinel page is a request to suspend the guest. What neither
//! phase lets the guest resume from is classified in the third phase, and
//! unwinds: a suspension with a resumable image of the instance, a trap
//! with the code that an exception table gives for it.

use vstd::prelude::*;
use crate::code_version::{
    exception_code_at,
    find_exception_code,
    find_inline_site,
    inline_site,
    CodeVersion,
    InlineSite,
};
use crate::error::{trap_error, InvokeError, RuntimeError};
use crate::fault_info::{FaultInfo, StackWalkRequest};
use crate::interrupt::{clear_wasm_interrupt, ProcessState, ProtectRequest, Protection};
use crate::signal::{may_name, signal_kind, SignalKind};
use crate::thread::{Ctx, ThreadState};
use crate::unwind::lookup_breakpoint;

verus! {

/// Kinds of inline breakpoints.
#[derive(Clone, Copy, Debug, PartialEq, Eq, Structural)]
pub enum InlineBreakpointType {
    /// A breakpoint that a middleware put into the code.
    Middleware,
}

/// An inline breakpoint, as a module decodes it from its code.
#[derive(Clone, Copy, Debug, PartialEq, Eq, Structural)]
pub struct InlineBreakpoint {
    /// The kind of the breakpoint.
    pub ty: InlineBreakpointType,
}

/// What a breakpoint callback returns: `Ok` to resume the guest, or the
/// error to unwind with.
pub type BreakpointResult<I, U> = Result<(), RuntimeError<I, U>>;

/// Continuation of a fault that may sit on an inline breakpoint: the host
/// reads `site.len` bytes of code at `site.addr`, asks the module of code
/// version `site.version` to decode them, and calls
/// [`InlineProbe::decoded`] with what it got.
#[derive(Clone, Copy, Debug, PartialEq, Eq)]
pub struct InlineProbe {
    /// The signal that reported the fault.
    pub signal: SignalKind,
    /// The fault.
    pub fault: FaultInfo,
    /// Where the inline breakpoint may sit.
    pub site: InlineSite,
    /// Address of the instruction that follows the inline breakpoint.
    pub resume_at: usize,
}

/// Continuation of a fault at a breakpoint: the host calls the breakpoint
/// callback with handle `callback` on `fault`, and calls
/// [`BreakpointCall::returned`] with what the callback returned.
#[derive(Clone, Copy, Debug, PartialEq, Eq)]
pub struct BreakpointCall {
    /// Handle of the callback.
    pub callback: usize,
    /// The fault.
    pub fault: FaultInfo,
    /// Where the guest resumes if the callback succeeds.
    pub resume_at: usize,
}

/// Continuation of a fault that is to be classified: the host changes the
/// protection of the sentinel page if `disarm` asks for it, walks the
/// guest's stack as `request` says, and calls [`StackWalk::walked`] with
/// the number of frames that the walk found.
#[derive(Clone, Copy, Debug, PartialEq, Eq)]
pub struct StackWalk {
    /// The fault.
    pub fault: FaultInfo,
    /// The walk to make.
    pub request: StackWalkRequest,
    /// Whether the fault is a request to suspend the guest.
    pub suspend: bool,
    /// The protection to restore on the sentinel page before the walk.
    pub disarm: Option<ProtectRequest>,
}

/// Continuation of a suspension: the host composes the image of the
/// instance from the instance context `ctx` and the execution state that
/// the stack walk gave, and calls [`ImageBuild::built`] with it.
#[derive(Clone, Copy, Debug, PartialEq, Eq)]
pub struct ImageBuild {
    /// The instance context that the guest ran with.
    pub ctx: Option<Ctx>,
}

/// What the handler has to do next.
#[derive(Clone, Debug, PartialEq, Eq)]
pub enum Step<I, U> {
    /// Decode the code at the faulting instruction as an inline
    /// breakpoint.
    DecodeInlineBreakpoint(InlineProbe),
    /// Call a breakpoint callback.
    InvokeBreakpoint(BreakpointCall),
    /// Walk the guest's stack.
    WalkStack(StackWalk),
    /// Build the image of the suspended instance.
    BuildInstanceImage(ImageBuild),
    /// Write `ip` into the program counter of the signal context and
    /// return from the handler: the guest resumes there.
    Resume {
        /// Where the guest resumes.
        ip: usize,
    },
    /// Unwind to the innermost catcher with `error`.
    Unwind {
        /// The error that the catcher receives.
        error: RuntimeError<I, U>,
        /// Whether to print the backtrace of the walked stack first.
        print_backtrace: bool,
    },
}

/// Whether a fault is a request to suspend the guest: a memory fault
/// whose address is that of the sentinel page.
pub open spec fn is_suspension(process: ProcessState, signal: SignalKind, fault: FaultInfo) -> bool {
    (signal == SignalKind::Segv || signal == SignalKind::Bus) && fault.faulting_addr
        == process.signal_mem
}

/// Whether the signal-specific phase hands the fault to a breakpoint
/// callback: the signal is a breakpoint trap and a callback is registered
/// at the faulting instruction.
pub open spec fn is_trap_breakpoint<I, U>(
    thread: ThreadState<I, U>,
    signal: SignalKind,
    fault: FaultInfo,
) -> bool {
    signal == SignalKind::Trap && thread.breakpoint_at(fault.ip) is Some
}

/// What the signal-specific phase needs of the thread and the fault: a
/// breakpoint trap is looked up in the active unwind frame, so there must
/// be one; any fault that goes on to be classified must carry the guest's
/// stack pointer.
pub open spec fn can_dispatch<I, U>(
    thread: ThreadState<I, U>,
    signal: SignalKind,
    fault: FaultInfo,
) -> bool {
    &&& signal == SignalKind::Trap ==> thread.in_catch_scope()
    &&& !is_trap_breakpoint(thread, signal, fault) ==> fault.stack_pointer() is Some
}

/// The thread after the signal-specific phase: the interrupt flag is up
/// exactly if the fault is a suspension that answers a delivered external
/// interrupt.
pub open spec fn thread_after_signal<I, U>(
    thread: ThreadState<I, U>,
    process: ProcessState,
    signal: SignalKind,
    fault: FaultInfo,
) -> ThreadState<I, U> {
    ThreadState {
        was_sigint_triggered: is_suspension(process, signal, fault) && process.delivered,
        ..thread
    }
}

/// The process after the signal-specific phase: a suspension disarms the
/// sentinel page and answers the pending interrupt, if any.
pub open spec fn process_after_signal(
    process: ProcessState,
    signal: SignalKind,
    fault: FaultInfo,
) -> ProcessState {
    if is_suspension(process, signal, fault) {
        process.observed()
    } else {
        process
    }
}

/// The step that the signal-specific phase yields.
pub open spec fn signal_step<I, U>(
    thread: ThreadState<I, U>,
    process: ProcessState,
    signal: SignalKind,
    fault: FaultInfo,
) -> Step<I, U> {
    if is_trap_breakpoint(thread, signal, fault) {
        Step::InvokeBreakpoint(
            BreakpointCall {
                callback: thread.breakpoint_at(fault.ip)->0,
                fault,
                resume_at: fault.ip,
            },
        )
    } else {
        Step::WalkStack(
            StackWalk {
                fault,
                request: fault.stack_walk(None)->0,
                suspend: is_suspension(process, signal, fault),
                disarm: if is_suspension(process, signal, fault) {
                    Some(process.request(Protection::ReadWrite))
                } else {
                    None
                },
            },
        )
    }
}

/// The probe for an inline breakpoint at `site`.
pub open spec fn probe(signal: SignalKind, fault: FaultInfo, site: InlineSite) -> InlineProbe {
    InlineProbe { signal, fault, site, resume_at: (fault.ip + site.len) as usize }
}

/// The step that a breakpoint callback's result yields: the guest resumes
/// at `resume_at` if the callback succeeded, and the callback's error
/// unwinds if it failed.
pub open spec fn breakpoint_step<I, U>(resume_at: usize, result: BreakpointResult<I, U>) -> Step<
    I,
    U,
> {
    match result {
        Ok(_) => Step::Resume { ip: resume_at },
        Err(error) => Step::Unwind { error, print_backtrace: false },
    }
}

/// Says whether a fault is a request to suspend the guest.
pub fn suspends(process: &ProcessState, signal: SignalKind, fault: &FaultInfo) -> (suspension: bool)
    ensures
        suspension == is_suspension(*process, signal, *fault),
{
    let memory_fault = match signal {
        SignalKind::Segv | SignalKind::Bus => true,
        _ => false,
    };
    memory_fault && fault.faulting_addr == process.signal_mem
}

/// Says whether the signal-specific phase can take up the fault. A host
/// makes sure of this before it enters the phase, and treats a fault that
/// the phase cannot take up as fatal.
pub fn ready_to_dispatch<I, U>(
    thread: &ThreadState<I, U>,
    signal: SignalKind,
    fault: &FaultInfo,
) -> (ready: bool)
    ensures
        ready == can_dispatch(*thread, signal, *fault),
{
    let trap = match signal {
        SignalKind::Trap => true,
        _ => false,
    };
    if trap {
        if !thread.unwind.is_some() {
            return false;
        }
        if lookup_breakpoint(thread, fault.ip).is_some() {
            return true;
        }
    }
    fault.read_stack(None).is_some()
}

/// The signal-specific phase of a fault.
///
/// The thread's interrupt flag is cleared. A breakpoint trap with a
/// callback registered at the faulting instruction goes to that callback.
/// A memory fault at the sentinel page is a suspension: the page is
/// disarmed and, if an external interrupt was delivered, the interrupt is
/// answered and the thread's interrupt flag is raised. Every fault that
/// did not go to a callback goes on to be classified.
pub fn signal_specific<I, U>(
    thread: &mut ThreadState<I, U>,
    process: &mut ProcessState,
    signal: SignalKind,
    fault: FaultInfo,
) -> (step: Step<I, U>)
    requires
        can_dispatch(*old(thread), signal, fault),
    ensures
        *final(thread) == thread_after_signal(*old(thread), *old(process), signal, fault),
        *final(process) == process_after_signal(*old(process), signal, fault),
        step == signal_step::<I, U>(*old(thread), *old(process), signal, fault),
{
    thread.was_sigint_triggered = false;
    let mut suspend = false;
    let mut disarm: Option<ProtectRequest> = None;
    match signal {
        SignalKind::Trap => {
            match lookup_breakpoint(thread, fault.ip) {
                Some(callback) => {
                    return Step::InvokeBreakpoint(
                        BreakpointCall { callback, fault, resume_at: fault.ip },
                    );
                },
                None => {},
            }
        },
        _ => {
            if suspends(process, signal, &fault) {
                suspend = true;
                disarm = Some(clear_wasm_interrupt(process));
                if process.delivered {
                    process.delivered = false;
                    thread.was_sigint_triggered = true;
                }
            }
        },
    }
    match fault.read_stack(None) {
        Some(request) => Step::WalkStack(StackWalk { fault, request, suspend, disarm }),
        None => vstd::pervasive::unreached(),
    }
}

/// The thread after a fault of kind `signal` was taken up: untouched where
/// an inline breakpoint is probed first, else as the signal-specific phase
/// leaves it.
pub open spec fn thread_after_fault<I, U>(
    thread: ThreadState<I, U>,
    process: ProcessState,
    signal: SignalKind,
    fault: FaultInfo,
) -> ThreadState<I, U> {
    if inline_site(thread.code_versions@, fault.ip) is Some {
        thread
    } else {
        thread_after_signal(thread, process, signal, fault)
    }
}

/// The process after a fault of kind `signal` was taken up.
pub open spec fn process_after_fault<I, U>(
    thread: ThreadState<I, U>,
    process: ProcessState,
    signal: SignalKind,
    fault: FaultInfo,
) -> ProcessState {
    if inline_site(thread.code_versions@, fault.ip) is Some {
        process
    } else {
        process_after_signal(process, signal, fault)
    }
}

/// The first step for a fault of kind `signal`: the probe for an inline
/// breakpoint where one may sit at the faulting instruction, else the step
/// of the signal-specific phase.
pub open spec fn fault_step<I, U>(
    thread: ThreadState<I, U>,
    process: ProcessState,
    signal: SignalKind,
    fault: FaultInfo,
) -> Step<I, U> {
    match inline_site(thread.code_versions@, fault.ip) {
        Some(site) => Step::DecodeInlineBreakpoint(probe(signal, fault, site)),
        None => signal_step(thread, process, signal, fault),
    }
}

/// Says whether a fault can be taken up whatever its signal is: either an
/// inline breakpoint is probed first, or the thread is within a catch
/// scope and the fault carries the guest's stack pointer.
pub fn ready_for_fault<I, U>(thread: &ThreadState<I, U>, fault: &FaultInfo) -> (ready: bool)
    ensures
        ready == (inline_site(thread.code_versions@, fault.ip) is Some || (thread.in_catch_scope()
            && fault.stack_pointer() is Some)),
{
    find_inline_site(&thread.code_versions, fault.ip).is_some() || (thread.unwind.is_some()
        && fault.read_stack(None).is_some())
}

/// Takes up a fault of kind `signal`.
///
/// Where the faulting instruction lies in an entered code version whose
/// module emits inline breakpoints that fit there, the code is to be
/// decoded first. Only the most recently entered code version that holds
/// the instruction is considered. Otherwise the signal-specific phase
/// follows at once.
pub fn handle_fault<I, U>(
    thread: &mut ThreadState<I, U>,
    process: &mut ProcessState,
    signal: SignalKind,
    fault: FaultInfo,
) -> (step: Step<I, U>)
    requires
        inline_site(old(thread).code_versions@, fault.ip) is None ==> can_dispatch(
            *old(thread),
            signal,
            fault,
        ),
    ensures
        *final(thread) == thread_after_fault(*old(thread), *old(process), signal, fault),
        *final(process) == process_after_fault(*old(thread), *old(process), signal, fault),
        step == fault_step::<I, U>(*old(thread), *old(process), signal, fault),
{
    match find_inline_site(&thread.code_versions, fault.ip) {
        Some(site) => Step::DecodeInlineBreakpoint(
            InlineProbe { signal, fault, site, resume_at: fault.ip + site.len },
        ),
        None => signal_specific(thread, process, signal, fault),
    }
}

/// The trap handler: takes up the fault that the kernel reported with
/// signal number `signum`.
///
/// The number is turned into a signal by the operating system's numbering,
/// and the fault is handled as [`handle_fault`] handles a fault of that
/// signal. The numbers of the arithmetic error, the illegal instruction and
/// the invalid memory access are the same everywhere, so for them the
/// signal is known; for the breakpoint trap and the bus error it is one
/// that [`may_name`] admits. A number that names no signal is handled as
/// any signal without a phase of its own.
pub fn signal_trap_handler<I, U>(
    thread: &mut ThreadState<I, U>,
    process: &mut ProcessState,
    signum: i32,
    fault: FaultInfo,
) -> (step: Step<I, U>)
    requires
        inline_site(old(thread).code_versions@, fault.ip) is None ==> old(thread).in_catch_scope()
            && fault.stack_pointer() is Some,
    ensures
        exists|signal: SignalKind|
            {
                &&& may_name(signum, signal)
                &&& *final(thread) == thread_after_fault(*old(thread), *old(process), signal, fault)
                &&& *final(process) == process_after_fault(
                    *old(thread),
                    *old(process),
                    signal,
                    fault,
                )
                &&& step == #[trigger] fault_step::<I, U>(
                    *old(thread),
                    *old(process),
                    signal,
                    fault,
                )
            },
{
    let signal = signal_kind(signum);
    handle_fault(thread, process, signal, fault)
}

impl InlineProbe {
    /// The step that follows the decoding: a decoded breakpoint goes to
    /// the callback registered at its address, or lets the guest resume
    /// behind it if there is none; code that is no inline breakpoint sends
    /// the fault on to the signal-specific phase.
    pub open spec fn decoded_step<I, U>(
        self,
        thread: ThreadState<I, U>,
        process: ProcessState,
        decoded: Option<InlineBreakpoint>,
    ) -> Step<I, U> {
        match decoded {
            Some(_) => match thread.breakpoint_at(self.fault.ip) {
                Some(callback) => Step::InvokeBreakpoint(
                    BreakpointCall { callback, fault: self.fault, resume_at: self.resume_at },
                ),
                None => Step::Resume { ip: self.resume_at },
            },
            None => signal_step(thread, process, self.signal, self.fault),
        }
    }

    /// What decoding needs of the thread: a decoded breakpoint is looked
    /// up in the active unwind frame, so there must be one; without a
    /// breakpoint the signal-specific phase follows.
    pub open spec fn can_continue<I, U>(
        self,
        thread: ThreadState<I, U>,
        decoded: Option<InlineBreakpoint>,
    ) -> bool {
        match decoded {
            Some(_) => thread.in_catch_scope(),
            None => can_dispatch(thread, self.signal, self.fault),
        }
    }

    /// Says whether the probe can continue with what the module decoded.
    pub fn ready_to_continue<I, U>(
        &self,
        thread: &ThreadState<I, U>,
        decoded: &Option<InlineBreakpoint>,
    ) -> (ready: bool)
        ensures
            ready == self.can_continue(*thread, *decoded),
    {
        match decoded {
            Some(_) => thread.unwind.is_some(),
            None => ready_to_dispatch(thread, self.signal, &self.fault),
        }
    }

    /// Continues with what the module decoded at the site.
    pub fn decoded<I, U>(
        self,
        thread: &mut ThreadState<I, U>,
        process: &mut ProcessState,
        decoded: Option<InlineBreakpoint>,
    ) -> (step: Step<I, U>)
        requires
            self.can_continue(*old(thread), decoded),
        ensures
            step == self.decoded_step::<I, U>(*old(thread), *old(process), decoded),
            decoded is Some ==> *final(thread) == *old(thread) && *final(process) == *old(process),
            decoded is None ==> *final(thread) == thread_after_signal(
                *old(thread),
                *old(process),
                self.signal,
                self.fault,
            ) && *final(process) == process_after_signal(*old(process), self.signal, self.fault),
    {
        match decoded {
            Some(breakpoint) => match breakpoint.ty {
                InlineBreakpointType::Middleware => {
                    match lookup_breakpoint(thread, self.fault.ip) {
                        Some(callback) => Step::InvokeBreakpoint(
                            BreakpointCall {
                                callback,
                                fault: self.fault,
                                resume_at: self.resume_at,
                            },
                        ),
                        None => Step::Resume { ip: self.resume_at },
                    }
                },
            },
            None => signal_specific(thread, process, self.signal, self.fault),
        }
    }
}

impl BreakpointCall {
    /// Continues with what the breakpoint callback returned.
    pub fn returned<I, U>(self, result: BreakpointResult<I, U>) -> (step: Step<I, U>)
        ensures
            step == breakpoint_step(self.resume_at, result),
    {
        match result {
            Ok(_) => Step::Resume { ip: self.resume_at },
            Err(error) => Step::Unwind { error, print_backtrace: false },
        }
    }
}

impl StackWalk {
    /// The step that follows the walk: a suspension has its image built;
    /// a trap unwinds with the code that the exception tables of the
    /// entered code versions give for the faulting instruction, or without
    /// a code if none does, after a backtrace if the walk found frames.
    pub open spec fn walked_step<I, U>(self, versions: Seq<CodeVersion>, ctx: Option<Ctx>, frames: usize) -> Step<
        I,
        U,
    > {
        if self.suspend {
            Step::BuildInstanceImage(ImageBuild { ctx })
        } else {
            Step::Unwind {
                error: trap_error(exception_code_at(versions, self.fault.ip)),
                print_backtrace: frames > 0,
            }
        }
    }

    /// Continues after the walk of the guest's stack, which found `frames`
    /// frames.
    pub fn walked<I, U>(self, thread: &ThreadState<I, U>, frames: usize) -> (step: Step<I, U>)
        ensures
            step == self.walked_step::<I, U>(thread.code_versions@, thread.current_ctx, frames),
    {
        if self.suspend {
            Step::BuildInstanceImage(ImageBuild { ctx: thread.current_ctx })
        } else {
            let error = match find_exception_code(&thread.code_versions, self.fault.ip) {
                Some(code) => RuntimeError::InvokeError(InvokeError::TrapCode { code, srcloc: 0 }),
                None => RuntimeError::InvokeError(InvokeError::FailedWithNoError),
            };
            Step::Unwind { error, print_backtrace: frames > 0 }
        }
    }
}

impl ImageBuild {
    /// Continues with the image of the suspended instance: the image
    /// unwinds to the catcher, from where the guest can be resumed.
    pub fn built<I, U>(self, image: I) -> (step: Step<I, U>)
        ensures
            step == (Step::<I, U>::Unwind {
                error: RuntimeError::InstanceImage(image),
                print_backtrace: false,
            }),
    {
        Step::Unwind { error: RuntimeError::InstanceImage(image), print_backtrace: false }
    }
}

/// What the host finds when it does the work that the steps of one fault
/// ask for.
pub struct Findings<I, U> {
    /// What the module decodes at the inline site.
    pub decoded: Option<InlineBreakpoint>,
    /// What the breakpoint callback returns.
    pub callback: BreakpointResult<I, U>,
    /// The number of frames that the stack walk finds.
    pub frames: usize,
    /// The image that the host builds of the suspended instance.
    pub image: I,
}

/// How the handling of a fault ends.
pub enum Outcome<I, U> {
    /// The guest resumes at `ip`.
    Resumed {
        /// Where the guest resumes.
        ip: usize,
    },
    /// The fault unwinds to the innermost catcher.
    Unwound {
        /// The error that the catcher receives.
        error: RuntimeError<I, U>,
        /// Whether a backtrace was printed.
        print_backtrace: bool,
    },
}

/// The end that a breakpoint callback's result brings.
pub open spec fn breakpoint_outcome<I, U>(
    resume_at: usize,
    result: BreakpointResult<I, U>,
) -> Outcome<I, U> {
    match result {
        Ok(_) => Outcome::Resumed { ip: resume_at },
        Err(error) => Outcome::Unwound { error, print_backtrace: false },
    }
}

/// Whether the handling of a fault ends in the first phase: an inline
/// breakpoint is decoded at the faulting instruction.
pub open spec fn ends_at_inline_breakpoint<I, U>(
    thread: ThreadState<I, U>,
    fault: FaultInfo,
    findings: Findings<I, U>,
) -> bool {
    inline_site(thread.code_versions@, fault.ip) is Some && findings.decoded is Some
}

/// How the handling of a fault ends, given what the host finds.
///
/// An inline breakpoint at the faulting instruction runs its callback and
/// lets the guest resume behind the breakpoint, unless the callback fails.
/// A breakpoint trap with a callback runs the callback and lets the guest
/// resume where it trapped, unless the callback fails. A memory fault at
/// the sentinel page unwinds with the image of the suspended instance.
/// Every other fault is a trap and unwinds with its trap code.
pub open spec fn outcome<I, U>(
    thread: ThreadState<I, U>,
    process: ProcessState,
    signal: SignalKind,
    fault: FaultInfo,
    findings: Findings<I, U>,
) -> Outcome<I, U> {
    if ends_at_inline_breakpoint(thread, fault, findings) {
        let resume_at = (fault.ip + inline_site(thread.code_versions@, fault.ip)->0.len) as usize;
        if thread.breakpoint_at(fault.ip) is Some {
            breakpoint_outcome(resume_at, findings.callback)
        } else {
            Outcome::Resumed { ip: resume_at }
        }
    } else if is_trap_breakpoint(thread, signal, fault) {
        breakpoint_outcome(fault.ip, findings.callback)
    } else if is_suspension(process, signal, fault) {
        Outcome::Unwound {
            error: RuntimeError::InstanceImage(findings.image),
            print_backtrace: false,
        }
    } else {
        Outcome::Unwound {
            error: trap_error(exception_code_at(thread.code_versions@, fault.ip)),
            print_backtrace: findings.frames > 0,
        }
    }
}

/// Number of continuations that a step can still be followed by.
pub open spec fn rank<I, U>(step: Step<I, U>) -> nat {
    match step {
        Step::DecodeInlineBreakpoint(_) => 4,
        Step::WalkStack(_) => 3,
        Step::BuildInstanceImage(_) => 2,
        Step::InvokeBreakpoint(_) => 1,
        Step::Resume { .. } => 0,
        Step::Unwind { .. } => 0,
    }
}

/// The step that follows `step` when the host finds `findings`. Of the
/// thread, the steps read the breakpoints, the code versions and the
/// instance context, none of which a step changes.
pub open spec fn next_step<I, U>(
    step: Step<I, U>,
    thread: ThreadState<I, U>,
    process: ProcessState,
    findings: Findings<I, U>,
) -> Step<I, U> {
    match step {
        Step::DecodeInlineBreakpoint(probe) => probe.decoded_step(
            thread,
            process,
            findings.decoded,
        ),
        Step::InvokeBreakpoint(call) => breakpoint_step(call.resume_at, findings.callback),
        Step::WalkStack(walk) => walk.walked_step(
            thread.code_versions@,
            thread.current_ctx,
            findings.frames,
        ),
        Step::BuildInstanceImage(_) => Step::Unwind {
            error: RuntimeError::InstanceImage(findings.image),
            print_backtrace: false,
        },
        _ => step,
    }
}

/// The end that the steps from `step` on reach when the host finds
/// `findings`.
pub open spec fn follow<I, U>(
    step: Step<I, U>,
    thread: ThreadState<I, U>,
    process: ProcessState,
    findings: Findings<I, U>,
) -> Outcome<I, U>
    decreases rank(step),
{
    match step {
        Step::Resume { ip } => Outcome::Resumed { ip },
        Step::Unwind { error, print_backtrace } => Outcome::Unwound { error, print_backtrace },
        _ => follow(next_step(step, thread, process, findings), thread, process, findings),
    }
}

/// Every continuation leads on: the step that follows a step has fewer
/// continuations before it, so the handling of a fault ends after at most
/// four pieces of outside work.
pub proof fn lemma_steps_lead_on<I, U>(
    step: Step<I, U>,
    thread: ThreadState<I, U>,
    process: ProcessState,
    findings: Findings<I, U>,
)
    requires
        rank(step) > 0,
    ensures
        rank(next_step(step, thread, process, findings)) < rank(step),
{
}

/// The steps of a fault end as [`outcome`] says.
pub proof fn lemma_steps_reach_outcome<I, U>(
    thread: ThreadState<I, U>,
    process: ProcessState,
    signal: SignalKind,
    fault: FaultInfo,
    findings: Findings<I, U>,
)
    ensures
        follow(fault_step(thread, process, signal, fault), thread, process, findings) == outcome(
            thread,
            process,
            signal,
            fault,
            findings,
        ),
{
    reveal_with_fuel(follow, 5);
}

/// After a fault whose handling went past the first phase, the thread's
/// interrupt flag is up exactly if the fault unwound with the image of a
/// suspension while an external interrupt was delivered.
pub proof fn lemma_interrupt_flag_marks_interrupted_image<I, U>(
    thread: ThreadState<I, U>,
    process: ProcessState,
    signal: SignalKind,
    fault: FaultInfo,
    findings: Findings<I, U>,
)
    requires
        !ends_at_inline_breakpoint(thread, fault, findings),
    ensures
        thread_after_signal(thread, process, signal, fault).was_sigint_triggered <==> process.delivered
            && is_suspension(process, signal, fault),
        is_suspension(process, signal, fault) ==> outcome(thread, process, signal, fault, findings)
            == (Outcome::<I, U>::Unwound {
            error: RuntimeError::InstanceImage(findings.image),
            print_backtrace: false,
        }),
        !process_after_signal(process, signal, fault).delivered || !is_suspension(
            process,
            signal,
            fault,
        ),
{
}

} // verus!
