//! Fault and interrupt core of a WebAssembly runtime.
//!
//! Signals raised by just-in-time compiled guest code are decoded into a
//! uniform [`fault_info::FaultInfo`] by the decoders of [`decode`],
//! classified by the steps of [`dispatch`], and end either in a resumption
//! of the guest or in an unwind to the innermost
//! [`unwind::catch_unsafe_unwind`]. An external interrupt suspends the guest
//! at its next safepoint by way of the sentinel page of [`interrupt`].
//!
//! Everything here is a function of plain values. The host that owns the
//! signal handlers, the sentinel page, the jump buffers and the guest stacks
//! keeps the [`thread::ThreadState`] of each thread and the
//! [`interrupt::ProcessState`] of the process, performs what the core asks
//! for and hands back what it found.

pub mod registers;
pub mod error;
pub mod fault_info;
pub mod decode;
pub mod code_version;
pub mod thread;
pub mod unwind;
pub mod interrupt;
pub mod signal;
pub mod install;
pub mod dispatch;
pub mod trampoline;
