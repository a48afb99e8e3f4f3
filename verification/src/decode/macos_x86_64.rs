//! Decoder for macOS on x86_64.

use vstd::prelude::*;
use crate::decode::set_register;
use crate::fault_info::FaultInfo;
use crate::registers::{GPR, X64Register, XMM};

verus! {

/// What the handler reads of the signal information.
#[derive(Clone, Copy, Debug, PartialEq, Eq)]
pub struct SigInfo {
    /// Address whose access faulted.
    pub si_addr: usize,
}

/// What the handler reads of the user context.
#[derive(Clone, Copy, Debug, PartialEq, Eq)]
pub struct UContext {
    /// Register `rax` of the thread state.
    pub rax: u64,
    /// Register `rbx` of the thread state.
    pub rbx: u64,
    /// Register `rcx` of the thread state.
    pub rcx: u64,
    /// Register `rdx` of the thread state.
    pub rdx: u64,
    /// Register `rdi` of the thread state.
    pub rdi: u64,
    /// Register `rsi` of the thread state.
    pub rsi: u64,
    /// Register `rbp` of the thread state.
    pub rbp: u64,
    /// Register `rsp` of the thread state.
    pub rsp: u64,
    /// Register `r8` of the thread state.
    pub r8: u64,
    /// Register `r9` of the thread state.
    pub r9: u64,
    /// Register `r10` of the thread state.
    pub r10: u64,
    /// Register `r11` of the thread state.
    pub r11: u64,
    /// Register `r12` of the thread state.
    pub r12: u64,
    /// Register `r13` of the thread state.
    pub r13: u64,
    /// Register `r14` of the thread state.
    pub r14: u64,
    /// Register `r15` of the thread state.
    pub r15: u64,
    /// Program counter of the thread state.
    pub rip: u64,
    /// XMM registers of the floating point state, each as two 64-bit
    /// halves, low half first.
    pub xmm: [[u64; 2]; 16],
}

impl UContext {
    /// The program counter that the context holds.
    pub open spec fn program_counter(self) -> usize {
        self.rip as usize
    }

    /// What the context holds of general purpose register `r`.
    pub open spec fn general(self, r: GPR) -> u64 {
        match r {
            GPR::RAX => self.rax,
            GPR::RCX => self.rcx,
            GPR::RDX => self.rdx,
            GPR::RBX => self.rbx,
            GPR::RSP => self.rsp,
            GPR::RBP => self.rbp,
            GPR::RSI => self.rsi,
            GPR::RDI => self.rdi,
            GPR::R8 => self.r8,
            GPR::R9 => self.r9,
            GPR::R10 => self.r10,
            GPR::R11 => self.r11,
            GPR::R12 => self.r12,
            GPR::R13 => self.r13,
            GPR::R14 => self.r14,
            GPR::R15 => self.r15,
        }
    }

    /// What the context holds of register `r`.
    pub open spec fn captured(self, r: X64Register) -> Option<u64> {
        match r {
            X64Register::GPR(r) => Some(self.general(r)),
            X64Register::XMM(r) => Some(self.xmm@[r.number()]@[0]),
        }
    }
}

/// Get fault info from siginfo and ucontext.
pub fn get_fault_info(siginfo: &SigInfo, ucontext: &UContext) -> (info: FaultInfo)
    ensures
        info.faulting_addr == siginfo.si_addr,
        info.ip == ucontext.program_counter(),
        forall|r: X64Register| #[trigger] info.register(r) == ucontext.captured(r),
        info.stack_pointer() is Some,
{
    let mut known_registers: [Option<u64>; 32] = [None; 32];
    set_register(&mut known_registers, X64Register::GPR(GPR::R15), ucontext.r15);
    set_register(&mut known_registers, X64Register::GPR(GPR::R14), ucontext.r14);
    set_register(&mut known_registers, X64Register::GPR(GPR::R13), ucontext.r13);
    set_register(&mut known_registers, X64Register::GPR(GPR::R12), ucontext.r12);
    set_register(&mut known_registers, X64Register::GPR(GPR::R11), ucontext.r11);
    set_register(&mut known_registers, X64Register::GPR(GPR::R10), ucontext.r10);
    set_register(&mut known_registers, X64Register::GPR(GPR::R9), ucontext.r9);
    set_register(&mut known_registers, X64Register::GPR(GPR::R8), ucontext.r8);
    set_register(&mut known_registers, X64Register::GPR(GPR::RSI), ucontext.rsi);
    set_register(&mut known_registers, X64Register::GPR(GPR::RDI), ucontext.rdi);
    set_register(&mut known_registers, X64Register::GPR(GPR::RDX), ucontext.rdx);
    set_register(&mut known_registers, X64Register::GPR(GPR::RCX), ucontext.rcx);
    set_register(&mut known_registers, X64Register::GPR(GPR::RBX), ucontext.rbx);
    set_register(&mut known_registers, X64Register::GPR(GPR::RAX), ucontext.rax);
    set_register(&mut known_registers, X64Register::GPR(GPR::RBP), ucontext.rbp);
    set_register(&mut known_registers, X64Register::GPR(GPR::RSP), ucontext.rsp);
    set_register(&mut known_registers, X64Register::XMM(XMM::XMM0), ucontext.xmm[0][0]);
    set_register(&mut known_registers, X64Register::XMM(XMM::XMM1), ucontext.xmm[1][0]);
    set_register(&mut known_registers, X64Register::XMM(XMM::XMM2), ucontext.xmm[2][0]);
    set_register(&mut known_registers, X64Register::XMM(XMM::XMM3), ucontext.xmm[3][0]);
    set_register(&mut known_registers, X64Register::XMM(XMM::XMM4), ucontext.xmm[4][0]);
    set_register(&mut known_registers, X64Register::XMM(XMM::XMM5), ucontext.xmm[5][0]);
    set_register(&mut known_registers, X64Register::XMM(XMM::XMM6), ucontext.xmm[6][0]);
    set_register(&mut known_registers, X64Register::XMM(XMM::XMM7), ucontext.xmm[7][0]);
    set_register(&mut known_registers, X64Register::XMM(XMM::XMM8), ucontext.xmm[8][0]);
    set_register(&mut known_registers, X64Register::XMM(XMM::XMM9), ucontext.xmm[9][0]);
    set_register(&mut known_registers, X64Register::XMM(XMM::XMM10), ucontext.xmm[10][0]);
    set_register(&mut known_registers, X64Register::XMM(XMM::XMM11), ucontext.xmm[11][0]);
    set_register(&mut known_registers, X64Register::XMM(XMM::XMM12), ucontext.xmm[12][0]);
    set_register(&mut known_registers, X64Register::XMM(XMM::XMM13), ucontext.xmm[13][0]);
    set_register(&mut known_registers, X64Register::XMM(XMM::XMM14), ucontext.xmm[14][0]);
    set_register(&mut known_registers, X64Register::XMM(XMM::XMM15), ucontext.xmm[15][0]);
    FaultInfo {
        faulting_addr: siginfo.si_addr,
        ip: ucontext.rip as usize,
        known_registers,
    }
}

/// Writes `ip` into the program counter slot of the context, where the
/// kernel resumes when the handler returns: a decode of the context then
/// reports `ip`, and every captured register as before.
pub fn set_ip(ucontext: &mut UContext, ip: usize)
    ensures
        final(ucontext).rip == ip as u64,
        final(ucontext).program_counter() == ip,
        forall|r: X64Register| #[trigger] final(ucontext).captured(r) == old(ucontext).captured(r),
        final(ucontext).xmm == old(ucontext).xmm,
{
    ucontext.rip = ip as u64;
    assert((ip as u64) as usize == ip) by (bit_vector);
}

} // verus!
