//! Decoder for FreeBSD on x86_64.

use vstd::prelude::*;
use crate::decode::{read_xmm, XmmRegister, set_register};
use crate::fault_info::FaultInfo;
use crate::registers::{GPR, X64Register, XMM};

verus! {

/// Flag of a machine context that holds extended floating point state in
/// place of the plain save area.
pub const MC_HASFPXSTATE: u32 = 0x4;

/// What the handler reads of the signal information.
#[derive(Clone, Copy, Debug, PartialEq, Eq)]
pub struct SigInfo {
    /// Address whose access faulted.
    pub si_addr: usize,
}

/// What the handler reads of the user context.
#[derive(Clone, Copy, Debug, PartialEq, Eq)]
pub struct UContext {
    /// Register `rdi`.
    pub mc_rdi: u64,
    /// Register `rsi`.
    pub mc_rsi: u64,
    /// Register `rdx`.
    pub mc_rdx: u64,
    /// Register `rcx`.
    pub mc_rcx: u64,
    /// Register `r8`.
    pub mc_r8: u64,
    /// Register `r9`.
    pub mc_r9: u64,
    /// Register `rax`.
    pub mc_rax: u64,
    /// Register `rbx`.
    pub mc_rbx: u64,
    /// Register `rbp`.
    pub mc_rbp: u64,
    /// Register `r10`.
    pub mc_r10: u64,
    /// Register `r11`.
    pub mc_r11: u64,
    /// Register `r12`.
    pub mc_r12: u64,
    /// Register `r13`.
    pub mc_r13: u64,
    /// Register `r14`.
    pub mc_r14: u64,
    /// Register `r15`.
    pub mc_r15: u64,
    /// Flags of the machine context.
    pub mc_flags: u32,
    /// Program counter of the fault.
    pub mc_rip: u64,
    /// Register `rsp`.
    pub mc_rsp: u64,
    /// XMM registers of the floating point save area. They are read only
    /// where the flags say that no extended state replaces them.
    pub sv_xmm: [XmmRegister; 16],
}

impl UContext {
    /// Whether the XMM registers can be read from the save area.
    pub open spec fn has_fp_save_area(self) -> bool {
        self.mc_flags & MC_HASFPXSTATE == 0
    }

    /// The program counter that the context holds.
    pub open spec fn program_counter(self) -> usize {
        self.mc_rip as usize
    }

    /// What the context holds of general purpose register `r`.
    pub open spec fn general(self, r: GPR) -> u64 {
        match r {
            GPR::RAX => self.mc_rax,
            GPR::RCX => self.mc_rcx,
            GPR::RDX => self.mc_rdx,
            GPR::RBX => self.mc_rbx,
            GPR::RSP => self.mc_rsp,
            GPR::RBP => self.mc_rbp,
            GPR::RSI => self.mc_rsi,
            GPR::RDI => self.mc_rdi,
            GPR::R8 => self.mc_r8,
            GPR::R9 => self.mc_r9,
            GPR::R10 => self.mc_r10,
            GPR::R11 => self.mc_r11,
            GPR::R12 => self.mc_r12,
            GPR::R13 => self.mc_r13,
            GPR::R14 => self.mc_r14,
            GPR::R15 => self.mc_r15,
        }
    }

    /// What the context holds of register `r`.
    pub open spec fn captured(self, r: X64Register) -> Option<u64> {
        match r {
            X64Register::GPR(r) => Some(self.general(r)),
            X64Register::XMM(r) => if self.has_fp_save_area() {
                Some(self.sv_xmm@[r.number()].low())
            } else {
                None
            },
        }
    }
}

/// Get fault info from siginfo and ucontext.
pub fn get_fault_info(siginfo: &SigInfo, ucontext: &UContext) -> (info: FaultInfo)
    ensures
        info.faulting_addr == siginfo.si_addr,
        info.ip == ucontext.program_counter(),
        forall|r: X64Register| #[trigger] info.register(r) == ucontext.captured(r),
        info.stack_pointer() is Some,
{
    let mut known_registers: [Option<u64>; 32] = [None; 32];
    set_register(&mut known_registers, X64Register::GPR(GPR::R15), ucontext.mc_r15);
    set_register(&mut known_registers, X64Register::GPR(GPR::R14), ucontext.mc_r14);
    set_register(&mut known_registers, X64Register::GPR(GPR::R13), ucontext.mc_r13);
    set_register(&mut known_registers, X64Register::GPR(GPR::R12), ucontext.mc_r12);
    set_register(&mut known_registers, X64Register::GPR(GPR::R11), ucontext.mc_r11);
    set_register(&mut known_registers, X64Register::GPR(GPR::R10), ucontext.mc_r10);
    set_register(&mut known_registers, X64Register::GPR(GPR::R9), ucontext.mc_r9);
    set_register(&mut known_registers, X64Register::GPR(GPR::R8), ucontext.mc_r8);
    set_register(&mut known_registers, X64Register::GPR(GPR::RSI), ucontext.mc_rsi);
    set_register(&mut known_registers, X64Register::GPR(GPR::RDI), ucontext.mc_rdi);
    set_register(&mut known_registers, X64Register::GPR(GPR::RDX), ucontext.mc_rdx);
    set_register(&mut known_registers, X64Register::GPR(GPR::RCX), ucontext.mc_rcx);
    set_register(&mut known_registers, X64Register::GPR(GPR::RBX), ucontext.mc_rbx);
    set_register(&mut known_registers, X64Register::GPR(GPR::RAX), ucontext.mc_rax);
    set_register(&mut known_registers, X64Register::GPR(GPR::RBP), ucontext.mc_rbp);
    set_register(&mut known_registers, X64Register::GPR(GPR::RSP), ucontext.mc_rsp);
    if (ucontext.mc_flags & MC_HASFPXSTATE) == 0 {
        set_register(&mut known_registers, X64Register::XMM(XMM::XMM0), read_xmm(&ucontext.sv_xmm[0]));
        set_register(&mut known_registers, X64Register::XMM(XMM::XMM1), read_xmm(&ucontext.sv_xmm[1]));
        set_register(&mut known_registers, X64Register::XMM(XMM::XMM2), read_xmm(&ucontext.sv_xmm[2]));
        set_register(&mut known_registers, X64Register::XMM(XMM::XMM3), read_xmm(&ucontext.sv_xmm[3]));
        set_register(&mut known_registers, X64Register::XMM(XMM::XMM4), read_xmm(&ucontext.sv_xmm[4]));
        set_register(&mut known_registers, X64Register::XMM(XMM::XMM5), read_xmm(&ucontext.sv_xmm[5]));
        set_register(&mut known_registers, X64Register::XMM(XMM::XMM6), read_xmm(&ucontext.sv_xmm[6]));
        set_register(&mut known_registers, X64Register::XMM(XMM::XMM7), read_xmm(&ucontext.sv_xmm[7]));
        set_register(&mut known_registers, X64Register::XMM(XMM::XMM8), read_xmm(&ucontext.sv_xmm[8]));
        set_register(&mut known_registers, X64Register::XMM(XMM::XMM9), read_xmm(&ucontext.sv_xmm[9]));
        set_register(&mut known_registers, X64Register::XMM(XMM::XMM10), read_xmm(&ucontext.sv_xmm[10]));
        set_register(&mut known_registers, X64Register::XMM(XMM::XMM11), read_xmm(&ucontext.sv_xmm[11]));
        set_register(&mut known_registers, X64Register::XMM(XMM::XMM12), read_xmm(&ucontext.sv_xmm[12]));
        set_register(&mut known_registers, X64Register::XMM(XMM::XMM13), read_xmm(&ucontext.sv_xmm[13]));
        set_register(&mut known_registers, X64Register::XMM(XMM::XMM14), read_xmm(&ucontext.sv_xmm[14]));
        set_register(&mut known_registers, X64Register::XMM(XMM::XMM15), read_xmm(&ucontext.sv_xmm[15]));
    }
    FaultInfo {
        faulting_addr: siginfo.si_addr,
        ip: ucontext.mc_rip as usize,
        known_registers,
    }
}

/// Writes `ip` into the program counter slot of the context, where the
/// kernel resumes when the handler returns: a decode of the context then
/// reports `ip`, and every captured register as before.
pub fn set_ip(ucontext: &mut UContext, ip: usize)
    ensures
        final(ucontext).mc_rip == ip as u64,
        final(ucontext).program_counter() == ip,
        forall|r: X64Register| #[trigger] final(ucontext).captured(r) == old(ucontext).captured(r),
        final(ucontext).mc_flags == old(ucontext).mc_flags,
        final(ucontext).sv_xmm == old(ucontext).sv_xmm,
{
    ucontext.mc_rip = ip as u64;
    assert((ip as u64) as usize == ip) by (bit_vector);
}

} // verus!
