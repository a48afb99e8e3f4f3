//! Installation of the signal handlers.
//!
//! The handlers are installed once per process and never removed. The core
//! decides what is installed; the host makes the system calls.

use vstd::prelude::*;
use nix::sys::signal::{SigAction, SigHandler};
use crate::interrupt::{PreviousHandler, ProcessState};
use crate::signal::SignalKind;

verus! {

/// An action on receipt of a signal, as the operating system keeps it. The
/// core only tells the kind of its handler.
#[verifier::external_type_specification]
#[verifier::external_body]
pub struct ExSigAction(SigAction);

/// The handlers that the core installs.
#[derive(Clone, Copy, Debug, PartialEq, Eq, Structural)]
pub enum HandlerRole {
    /// The common handler of the synchronous traps, which runs the fault
    /// dispatcher.
    Trap,
    /// The handler of the external interrupt.
    Interrupt,
}

/// One handler to install.
#[derive(Clone, Copy, Debug, PartialEq, Eq, Structural)]
pub struct Installation {
    /// The signal to handle.
    pub signal: SignalKind,
    /// The handler to install for it.
    pub handler: HandlerRole,
    /// Whether the handler runs on the alternate signal stack.
    pub on_alternate_stack: bool,
    /// Whether the disposition that the handler replaces is kept, to be
    /// run after the handler.
    pub chain_previous: bool,
}

/// The installation of the trap handler for `signal`.
pub open spec fn trap_installation(signal: SignalKind) -> Installation {
    Installation {
        signal,
        handler: HandlerRole::Trap,
        on_alternate_stack: true,
        chain_previous: false,
    }
}

/// The installation of the interrupt handler.
pub open spec fn interrupt_installation() -> Installation {
    Installation {
        signal: SignalKind::Int,
        handler: HandlerRole::Interrupt,
        on_alternate_stack: true,
        chain_previous: true,
    }
}

/// What is installed, in order: the trap handler for the five synchronous
/// traps and the interrupt handler for the external interrupt, all of them
/// on the alternate signal stack.
pub open spec fn installation_plan() -> Seq<Installation> {
    seq![
        trap_installation(SignalKind::Fpe),
        trap_installation(SignalKind::Ill),
        trap_installation(SignalKind::Segv),
        trap_installation(SignalKind::Bus),
        trap_installation(SignalKind::Trap),
        interrupt_installation(),
    ]
}

fn trap_handler_for(signal: SignalKind) -> (installation: Installation)
    ensures
        installation == trap_installation(signal),
{
    Installation {
        signal,
        handler: HandlerRole::Trap,
        on_alternate_stack: true,
        chain_previous: false,
    }
}

/// Lists the handlers to install.
pub fn install_sighandler() -> (plan: Vec<Installation>)
    ensures
        plan@ == installation_plan(),
{
    let mut plan: Vec<Installation> = Vec::new();
    plan.push(trap_handler_for(SignalKind::Fpe));
    plan.push(trap_handler_for(SignalKind::Ill));
    plan.push(trap_handler_for(SignalKind::Segv));
    plan.push(trap_handler_for(SignalKind::Bus));
    plan.push(trap_handler_for(SignalKind::Trap));
    plan.push(
        Installation {
            signal: SignalKind::Int,
            handler: HandlerRole::Interrupt,
            on_alternate_stack: true,
            chain_previous: true,
        },
    );
    assert(plan@ =~= installation_plan());
    plan
}

/// The state once the handlers are installed.
pub open spec fn installed(state: ProcessState) -> ProcessState {
    ProcessState { sighandler_installed: true, ..state }
}

/// The handlers that are still to be installed in state `state`: all of
/// them before the first installation, none after it.
pub open spec fn pending(state: ProcessState) -> Seq<Installation> {
    if state.sighandler_installed {
        Seq::<Installation>::empty()
    } else {
        installation_plan()
    }
}

/// Ensure the signal handler is installed: the first call lists the
/// handlers to install, every later call lists none.
pub fn ensure_sighandler(state: &mut ProcessState) -> (plan: Vec<Installation>)
    ensures
        *final(state) == installed(*old(state)),
        plan@ == pending(*old(state)),
{
    if state.sighandler_installed {
        return Vec::new();
    }
    state.sighandler_installed = true;
    install_sighandler()
}

/// The state with `previous` as the disposition that the installation
/// replaced.
pub open spec fn chained(state: ProcessState, previous: PreviousHandler) -> ProcessState {
    ProcessState { sigint_sys_handler: Some(previous), ..state }
}

/// The kind of the handler of an action: what
/// `nix::sys::signal::SigAction::handler` returns for it, which the action
/// alone decides.
pub uninterp spec fn handler_kind(action: SigAction) -> PreviousHandler;

/// Calls `nix::sys::signal::SigAction::handler` and says of which kind the
/// handler of the action is. The call reads nothing but the action, so the
/// same action always has the same kind; which kind that is, the action
/// shows only through this call.
#[verifier::external_body]
pub(crate) fn previous_handler(action: &SigAction) -> (previous: PreviousHandler)
    ensures
        previous == handler_kind(*action),
{
    match action.handler() {
        SigHandler::SigDfl => PreviousHandler::Default,
        SigHandler::SigIgn => PreviousHandler::Ignore,
        SigHandler::Handler(_) => PreviousHandler::Handler,
        SigHandler::SigAction(_) => PreviousHandler::SigAction,
    }
}

/// Records the kind of the disposition of the interrupt signal that the
/// installation replaced, so that the interrupt handler can run it.
pub fn chain_sigint_handler(state: &mut ProcessState, previous: PreviousHandler)
    ensures
        *final(state) == chained(*old(state), previous),
{
    state.sigint_sys_handler = Some(previous);
}

/// Records the disposition of the interrupt signal that the installation
/// replaced, as the operating system returned it. Returns the kind of its
/// handler.
pub fn set_sigint_sys_handler(state: &mut ProcessState, action: &SigAction) -> (previous:
    PreviousHandler)
    ensures
        previous == handler_kind(*action),
        *final(state) == chained(*old(state), handler_kind(*action)),
{
    let previous = previous_handler(action);
    chain_sigint_handler(state, previous);
    previous
}

/// Installation is idempotent: once the handlers are ensured, ensuring
/// them again installs nothing and changes nothing.
pub proof fn lemma_ensure_idempotent(state: ProcessState)
    ensures
        pending(installed(state)) == Seq::<Installation>::empty(),
        installed(installed(state)) == installed(state),
{
}

} // verus!
