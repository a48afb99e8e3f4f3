//! The interrupt sentinel page and the external interrupt.
//!
//! Guest code touches the sentinel page at every safepoint. While the page
//! is armed, that is protected against every access, the touch faults, and
//! the fault dispatcher takes the fault as a request to suspend the guest.
//! An external interrupt arms the page and raises the delivered flag; the
//! suspension that answers it disarms the page and lowers the flag.
//!
//! The functions here keep the model of the page and say which protection
//! the host has to put on it; the host makes the system call, and treats
//! its failure as fatal.

use vstd::prelude::*;
use crate::thread::Ctx;

verus! {

/// Size of the interrupt sentinel page in bytes.
pub const INTERRUPT_SIGNAL_MEM_SIZE: usize = 4096;

/// Protection of a range of memory.
#[derive(Clone, Copy, Debug, PartialEq, Eq, Structural)]
pub enum Protection {
    /// No access: the page is armed.
    NoAccess,
    /// Read and write access: the page is disarmed.
    ReadWrite,
}

/// A change of memory protection that the host has to make.
#[derive(Clone, Copy, Debug, PartialEq, Eq, Structural)]
pub struct ProtectRequest {
    /// Address of the first byte.
    pub addr: usize,
    /// Number of bytes.
    pub len: usize,
    /// The protection to set.
    pub protection: Protection,
}

/// State that all threads of a process share.
#[derive(Clone, Copy, Debug, PartialEq, Eq, Structural)]
pub struct ProcessState {
    /// Address of the sentinel page; it never changes.
    pub signal_mem: usize,
    /// Protection of the sentinel page.
    pub protection: Protection,
    /// Whether an external interrupt was delivered that no suspension has
    /// answered yet.
    pub delivered: bool,
    /// Whether the signal handlers are installed.
    pub sighandler_installed: bool,
    /// The disposition of the interrupt signal that the installation
    /// replaced.
    pub sigint_sys_handler: Option<PreviousHandler>,
}

/// What the handler of the external interrupt has to do.
#[derive(Clone, Copy, Debug, PartialEq, Eq, Structural)]
pub enum SigintAction {
    /// A second interrupt came before the guest answered the first: report
    /// it and abort the process.
    Abort,
    /// Arm the sentinel page, then run the handler that was in place
    /// before, if there was one.
    ArmAndChain {
        /// The protection to put on the sentinel page.
        protect: ProtectRequest,
        /// How to run the previous handler.
        chain: Option<ChainAction>,
    },
}

/// The disposition of a signal that was in place before a handler was
/// installed.
#[derive(Clone, Copy, Debug, PartialEq, Eq, Structural)]
pub enum PreviousHandler {
    /// The default action of the signal.
    Default,
    /// The signal was ignored.
    Ignore,
    /// A handler that takes the signal number.
    Handler,
    /// A handler that takes the signal number, the signal information and
    /// the user context.
    SigAction,
}

/// How to run a previous handler.
#[derive(Clone, Copy, Debug, PartialEq, Eq, Structural)]
pub enum ChainAction {
    /// Install the previous disposition again, so that the default action
    /// is in place from now on.
    Reinstall,
    /// Do nothing.
    Nothing,
    /// Call the handler with the signal number.
    CallHandler,
    /// Call the handler with the signal number, the signal information and
    /// the user context.
    CallSigAction,
}

impl ProcessState {
    /// The state with the sentinel page armed.
    pub open spec fn armed(self) -> ProcessState {
        ProcessState { protection: Protection::NoAccess, ..self }
    }

    /// The state with the sentinel page disarmed.
    pub open spec fn disarmed(self) -> ProcessState {
        ProcessState { protection: Protection::ReadWrite, ..self }
    }

    /// The request that puts `protection` on the sentinel page.
    pub open spec fn request(self, protection: Protection) -> ProtectRequest {
        ProtectRequest { addr: self.signal_mem, len: INTERRUPT_SIGNAL_MEM_SIZE, protection }
    }

    /// The state after an instance armed the page that its context names:
    /// the sentinel page is armed if that is the page.
    pub open spec fn armed_by(self, ctx: Ctx) -> ProcessState {
        if ctx.interrupt_signal_mem == self.signal_mem {
            self.armed()
        } else {
            self
        }
    }

    /// The state after an external interrupt: the interrupt is delivered
    /// and, unless one was pending already, the page is armed.
    pub open spec fn interrupted(self) -> ProcessState {
        if self.delivered {
            self
        } else {
            ProcessState { delivered: true, ..self.armed() }
        }
    }

    /// The state after a suspension answered the pending interrupt, if
    /// any: the page is disarmed and no interrupt is pending.
    pub open spec fn observed(self) -> ProcessState {
        ProcessState { delivered: false, ..self.disarmed() }
    }

    /// The state of a process whose sentinel page was just mapped at
    /// `signal_mem`: the page is readable and writable, no interrupt is
    /// delivered and no handler is installed.
    pub fn new(signal_mem: usize) -> (state: ProcessState)
        ensures
            state == (ProcessState {
                signal_mem,
                protection: Protection::ReadWrite,
                delivered: false,
                sighandler_installed: false,
                sigint_sys_handler: None,
            }),
    {
        ProcessState {
            signal_mem,
            protection: Protection::ReadWrite,
            delivered: false,
            sighandler_installed: false,
            sigint_sys_handler: None,
        }
    }
}

/// Gets the wasm interrupt signal mem: the address of the sentinel page.
pub fn get_wasm_interrupt_signal_mem(state: &ProcessState) -> (addr: usize)
    ensures
        addr == state.signal_mem,
{
    state.signal_mem
}

/// Sets the wasm interrupt on the given `Ctx`: arms the page that the
/// instance context names.
pub fn set_wasm_interrupt_on_ctx(state: &mut ProcessState, ctx: &Ctx) -> (request: ProtectRequest)
    ensures
        *final(state) == old(state).armed_by(*ctx),
        request == (ProtectRequest {
            addr: ctx.interrupt_signal_mem,
            len: INTERRUPT_SIGNAL_MEM_SIZE,
            protection: Protection::NoAccess,
        }),
{
    if ctx.interrupt_signal_mem == state.signal_mem {
        state.protection = Protection::NoAccess;
    }
    ProtectRequest {
        addr: ctx.interrupt_signal_mem,
        len: INTERRUPT_SIGNAL_MEM_SIZE,
        protection: Protection::NoAccess,
    }
}

/// Sets a wasm interrupt: arms the sentinel page.
pub fn set_wasm_interrupt(state: &mut ProcessState) -> (request: ProtectRequest)
    ensures
        *final(state) == old(state).armed(),
        request == old(state).request(Protection::NoAccess),
{
    state.protection = Protection::NoAccess;
    ProtectRequest {
        addr: state.signal_mem,
        len: INTERRUPT_SIGNAL_MEM_SIZE,
        protection: Protection::NoAccess,
    }
}

/// Clears the wasm interrupt: disarms the sentinel page.
pub fn clear_wasm_interrupt(state: &mut ProcessState) -> (request: ProtectRequest)
    ensures
        *final(state) == old(state).disarmed(),
        request == old(state).request(Protection::ReadWrite),
{
    state.protection = Protection::ReadWrite;
    ProtectRequest {
        addr: state.signal_mem,
        len: INTERRUPT_SIGNAL_MEM_SIZE,
        protection: Protection::ReadWrite,
    }
}

/// How to run the handler that was in place before: the default
/// disposition is installed again, an ignored signal stays ignored, and a
/// handler is called with the arguments of its kind.
pub open spec fn chain_action(previous: PreviousHandler) -> ChainAction {
    match previous {
        PreviousHandler::Default => ChainAction::Reinstall,
        PreviousHandler::Ignore => ChainAction::Nothing,
        PreviousHandler::Handler => ChainAction::CallHandler,
        PreviousHandler::SigAction => ChainAction::CallSigAction,
    }
}

/// What an external interrupt asks of the host in state `state`.
pub open spec fn sigint_action(state: ProcessState) -> SigintAction {
    if state.delivered {
        SigintAction::Abort
    } else {
        SigintAction::ArmAndChain {
            protect: state.request(Protection::NoAccess),
            chain: match state.sigint_sys_handler {
                Some(previous) => Some(chain_action(previous)),
                None => None,
            },
        }
    }
}

/// Handles an external interrupt. The first interrupt is recorded as
/// delivered and arms the sentinel page, so that the guest is suspended at
/// its next safepoint; the handler that was in place before runs after
/// that. A second interrupt that comes while the first is still pending
/// means that the guest does not respond: the process is to be aborted.
pub fn sigint_handler(state: &mut ProcessState) -> (action: SigintAction)
    ensures
        *final(state) == old(state).interrupted(),
        action == sigint_action(*old(state)),
{
    let pending = state.delivered;
    state.delivered = true;
    if pending {
        return SigintAction::Abort;
    }
    let protect = set_wasm_interrupt(state);
    let chain = match state.sigint_sys_handler {
        Some(previous) => Some(call_signal_handler(previous)),
        None => None,
    };
    SigintAction::ArmAndChain { protect, chain }
}

/// Says how to run the handler that was in place before.
pub fn call_signal_handler(previous: PreviousHandler) -> (action: ChainAction)
    ensures
        action == chain_action(previous),
{
    match previous {
        PreviousHandler::Default => ChainAction::Reinstall,
        PreviousHandler::Ignore => ChainAction::Nothing,
        PreviousHandler::Handler => ChainAction::CallHandler,
        PreviousHandler::SigAction => ChainAction::CallSigAction,
    }
}

/// Arming and then disarming the sentinel page leaves it readable and
/// writable.
pub proof fn lemma_arm_then_disarm(state: ProcessState)
    ensures
        state.armed().disarmed().protection == Protection::ReadWrite,
        state.armed().disarmed() == state.disarmed(),
{
}

/// Arming the sentinel page twice is the same as arming it once.
pub proof fn lemma_arm_idempotent(state: ProcessState)
    ensures
        state.armed().armed() == state.armed(),
{
}

/// Disarming the sentinel page twice is the same as disarming it once.
pub proof fn lemma_disarm_idempotent(state: ProcessState)
    ensures
        state.disarmed().disarmed() == state.disarmed(),
{
}

/// An interrupt that a suspension has answered leaves the machinery as it
/// was before the interrupt came, with the page disarmed: the next
/// interrupt is a first one again.
pub proof fn lemma_interrupt_then_observe(state: ProcessState)
    requires
        !state.delivered,
    ensures
        state.interrupted().delivered,
        state.interrupted().protection == Protection::NoAccess,
        state.interrupted().observed() == state.disarmed(),
        !state.interrupted().observed().delivered,
{
}

/// A second interrupt before the first is answered aborts: whatever the
/// state, the interrupt that follows an interrupt asks for an abort.
pub proof fn lemma_second_interrupt_aborts(state: ProcessState)
    ensures
        sigint_action(state.interrupted()) == SigintAction::Abort,
{
}

} // verus!
