//! Decoder for FreeBSD on aarch64.
//!
//! The host's general registers stand for the guest's x86_64 registers as
//! [`aarch64_source`] says; the context holds no vector registers that a
//! register file could take, so the XMM slots stay empty.

use vstd::prelude::*;
use crate::decode::{aarch64_source, set_register};
use crate::fault_info::FaultInfo;
use crate::registers::{GPR, X64Register};

verus! {

/// What the handler reads of the signal information.
#[derive(Clone, Copy, Debug, PartialEq, Eq)]
pub struct SigInfo {
    /// Address whose access faulted.
    pub si_addr: usize,
}

/// What the handler reads of the user context.
#[derive(Clone, Copy, Debug, PartialEq, Eq)]
pub struct UContext {
    /// General registers `x0` to `x29` of the machine context.
    pub gp_x: [u64; 30],
    /// Exception link register: the program counter of the fault.
    pub gp_elr: u64,
}

impl UContext {
    /// The program counter that the context holds.
    pub open spec fn program_counter(self) -> usize {
        self.gp_elr as usize
    }

    /// What the context holds of register `r`.
    pub open spec fn captured(self, r: X64Register) -> Option<u64> {
        match r {
            X64Register::GPR(r) => Some(self.gp_x@[aarch64_source(r)]),
            X64Register::XMM(_) => None,
        }
    }
}

/// Get fault info from siginfo and ucontext.
pub fn get_fault_info(siginfo: &SigInfo, ucontext: &UContext) -> (info: FaultInfo)
    ensures
        info.faulting_addr == siginfo.si_addr as usize,
        info.ip == ucontext.program_counter(),
        forall|r: X64Register| #[trigger] info.register(r) == ucontext.captured(r),
        info.stack_pointer() is Some,
{
    let gregs = &ucontext.gp_x;
    let mut known_registers: [Option<u64>; 32] = [None; 32];
    set_register(&mut known_registers, X64Register::GPR(GPR::R15), gregs[15]);
    set_register(&mut known_registers, X64Register::GPR(GPR::R14), gregs[14]);
    set_register(&mut known_registers, X64Register::GPR(GPR::R13), gregs[13]);
    set_register(&mut known_registers, X64Register::GPR(GPR::R12), gregs[12]);
    set_register(&mut known_registers, X64Register::GPR(GPR::R11), gregs[11]);
    set_register(&mut known_registers, X64Register::GPR(GPR::R10), gregs[10]);
    set_register(&mut known_registers, X64Register::GPR(GPR::R9), gregs[9]);
    set_register(&mut known_registers, X64Register::GPR(GPR::R8), gregs[8]);
    set_register(&mut known_registers, X64Register::GPR(GPR::RSI), gregs[6]);
    set_register(&mut known_registers, X64Register::GPR(GPR::RDI), gregs[7]);
    set_register(&mut known_registers, X64Register::GPR(GPR::RDX), gregs[2]);
    set_register(&mut known_registers, X64Register::GPR(GPR::RCX), gregs[1]);
    set_register(&mut known_registers, X64Register::GPR(GPR::RBX), gregs[3]);
    set_register(&mut known_registers, X64Register::GPR(GPR::RAX), gregs[0]);
    set_register(&mut known_registers, X64Register::GPR(GPR::RBP), gregs[5]);
    set_register(&mut known_registers, X64Register::GPR(GPR::RSP), gregs[28]);
    FaultInfo {
        faulting_addr: siginfo.si_addr as usize,
        ip: ucontext.gp_elr as usize,
        known_registers,
    }
}

/// Writes `ip` into the program counter slot of the context, where the
/// kernel resumes when the handler returns: a decode of the context then
/// reports `ip`, and every captured register as before.
pub fn set_ip(ucontext: &mut UContext, ip: usize)
    ensures
        final(ucontext).gp_elr == ip as u64,
        final(ucontext).gp_x == old(ucontext).gp_x,
        final(ucontext).program_counter() == ip,
        forall|r: X64Register| #[trigger] final(ucontext).captured(r) == old(ucontext).captured(r),
{
    ucontext.gp_elr = ip as u64;
    assert((ip as u64) as usize == ip) by (bit_vector);
}

} // verus!
