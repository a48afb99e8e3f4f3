//! Decoder for Linux on x86_64.

use vstd::prelude::*;
use crate::decode::{read_xmm, set_register, XmmRegister};
use crate::fault_info::FaultInfo;
use crate::registers::{GPR, X64Register, XMM};

verus! {

/// Number of entries in the general register array of a machine context.
pub const NGREG: usize = 23;

/// Offsets of the registers in the general register array of a machine
/// context, as the C library's `sys/ucontext.h` numbers them.
pub const REG_R8: usize = 0;

pub const REG_R9: usize = 1;

pub const REG_R10: usize = 2;

pub const REG_R11: usize = 3;

pub const REG_R12: usize = 4;

pub const REG_R13: usize = 5;

pub const REG_R14: usize = 6;

pub const REG_R15: usize = 7;

pub const REG_RDI: usize = 8;

pub const REG_RSI: usize = 9;

pub const REG_RBP: usize = 10;

pub const REG_RBX: usize = 11;

pub const REG_RDX: usize = 12;

pub const REG_RAX: usize = 13;

pub const REG_RCX: usize = 14;

pub const REG_RSP: usize = 15;

pub const REG_RIP: usize = 16;

/// What the handler reads of the signal information.
#[derive(Clone, Copy, Debug, PartialEq, Eq)]
pub struct SigInfo {
    /// Address whose access faulted.
    pub si_addr: u64,
}

/// What the handler reads of the user context.
#[derive(Clone, Copy, Debug, PartialEq, Eq)]
pub struct UContext {
    /// General registers of the machine context.
    pub gregs: [i64; 23],
    /// XMM registers of the floating point state; `None` where the machine
    /// context points to no floating point state.
    pub fpregs: Option<[XmmRegister; 16]>,
}

/// Offset in the general register array of general purpose register `r`.
pub open spec fn greg(r: GPR) -> int {
    match r {
        GPR::RAX => REG_RAX as int,
        GPR::RCX => REG_RCX as int,
        GPR::RDX => REG_RDX as int,
        GPR::RBX => REG_RBX as int,
        GPR::RSP => REG_RSP as int,
        GPR::RBP => REG_RBP as int,
        GPR::RSI => REG_RSI as int,
        GPR::RDI => REG_RDI as int,
        GPR::R8 => REG_R8 as int,
        GPR::R9 => REG_R9 as int,
        GPR::R10 => REG_R10 as int,
        GPR::R11 => REG_R11 as int,
        GPR::R12 => REG_R12 as int,
        GPR::R13 => REG_R13 as int,
        GPR::R14 => REG_R14 as int,
        GPR::R15 => REG_R15 as int,
    }
}

impl UContext {
    /// The program counter that the context holds.
    pub open spec fn program_counter(self) -> usize {
        self.gregs@[REG_RIP as int] as usize
    }

    /// What the context holds of register `r`.
    pub open spec fn captured(self, r: X64Register) -> Option<u64> {
        match r {
            X64Register::GPR(r) => Some(self.gregs@[greg(r)] as u64),
            X64Register::XMM(r) => match self.fpregs {
                Some(xmm) => Some(xmm@[r.number()].low()),
                None => None,
            },
        }
    }
}

/// Get fault info from siginfo and ucontext.
pub fn get_fault_info(siginfo: &SigInfo, ucontext: &UContext) -> (info: FaultInfo)
    ensures
        info.faulting_addr == siginfo.si_addr as usize,
        info.ip == ucontext.program_counter(),
        forall|r: X64Register| #[trigger] info.register(r) == ucontext.captured(r),
        info.stack_pointer() is Some,
{
    let gregs = &ucontext.gregs;
    let mut known_registers: [Option<u64>; 32] = [None; 32];
    set_register(&mut known_registers, X64Register::GPR(GPR::R15), gregs[REG_R15] as u64);
    set_register(&mut known_registers, X64Register::GPR(GPR::R14), gregs[REG_R14] as u64);
    set_register(&mut known_registers, X64Register::GPR(GPR::R13), gregs[REG_R13] as u64);
    set_register(&mut known_registers, X64Register::GPR(GPR::R12), gregs[REG_R12] as u64);
    set_register(&mut known_registers, X64Register::GPR(GPR::R11), gregs[REG_R11] as u64);
    set_register(&mut known_registers, X64Register::GPR(GPR::R10), gregs[REG_R10] as u64);
    set_register(&mut known_registers, X64Register::GPR(GPR::R9), gregs[REG_R9] as u64);
    set_register(&mut known_registers, X64Register::GPR(GPR::R8), gregs[REG_R8] as u64);
    set_register(&mut known_registers, X64Register::GPR(GPR::RSI), gregs[REG_RSI] as u64);
    set_register(&mut known_registers, X64Register::GPR(GPR::RDI), gregs[REG_RDI] as u64);
    set_register(&mut known_registers, X64Register::GPR(GPR::RDX), gregs[REG_RDX] as u64);
    set_register(&mut known_registers, X64Register::GPR(GPR::RCX), gregs[REG_RCX] as u64);
    set_register(&mut known_registers, X64Register::GPR(GPR::RBX), gregs[REG_RBX] as u64);
    set_register(&mut known_registers, X64Register::GPR(GPR::RAX), gregs[REG_RAX] as u64);
    set_register(&mut known_registers, X64Register::GPR(GPR::RBP), gregs[REG_RBP] as u64);
    set_register(&mut known_registers, X64Register::GPR(GPR::RSP), gregs[REG_RSP] as u64);
    match &ucontext.fpregs {
        Some(xmm) => {
            set_register(&mut known_registers, X64Register::XMM(XMM::XMM0), read_xmm(&xmm[0]));
            set_register(&mut known_registers, X64Register::XMM(XMM::XMM1), read_xmm(&xmm[1]));
            set_register(&mut known_registers, X64Register::XMM(XMM::XMM2), read_xmm(&xmm[2]));
            set_register(&mut known_registers, X64Register::XMM(XMM::XMM3), read_xmm(&xmm[3]));
            set_register(&mut known_registers, X64Register::XMM(XMM::XMM4), read_xmm(&xmm[4]));
            set_register(&mut known_registers, X64Register::XMM(XMM::XMM5), read_xmm(&xmm[5]));
            set_register(&mut known_registers, X64Register::XMM(XMM::XMM6), read_xmm(&xmm[6]));
            set_register(&mut known_registers, X64Register::XMM(XMM::XMM7), read_xmm(&xmm[7]));
            set_register(&mut known_registers, X64Register::XMM(XMM::XMM8), read_xmm(&xmm[8]));
            set_register(&mut known_registers, X64Register::XMM(XMM::XMM9), read_xmm(&xmm[9]));
            set_register(&mut known_registers, X64Register::XMM(XMM::XMM10), read_xmm(&xmm[10]));
            set_register(&mut known_registers, X64Register::XMM(XMM::XMM11), read_xmm(&xmm[11]));
            set_register(&mut known_registers, X64Register::XMM(XMM::XMM12), read_xmm(&xmm[12]));
            set_register(&mut known_registers, X64Register::XMM(XMM::XMM13), read_xmm(&xmm[13]));
            set_register(&mut known_registers, X64Register::XMM(XMM::XMM14), read_xmm(&xmm[14]));
            set_register(&mut known_registers, X64Register::XMM(XMM::XMM15), read_xmm(&xmm[15]));
        },
        None => {},
    }
    FaultInfo {
        faulting_addr: siginfo.si_addr as usize,
        ip: gregs[REG_RIP] as usize,
        known_registers,
    }
}

/// Writes `ip` into the program counter slot of the context, where the
/// kernel resumes when the handler returns: a decode of the context then
/// reports `ip`, and every captured register as before.
pub fn set_ip(ucontext: &mut UContext, ip: usize)
    ensures
        final(ucontext).gregs@ == old(ucontext).gregs@.update(REG_RIP as int, ip as i64),
        final(ucontext).fpregs == old(ucontext).fpregs,
        final(ucontext).program_counter() == ip,
        forall|r: X64Register| #[trigger] final(ucontext).captured(r) == old(ucontext).captured(r),
{
    ucontext.gregs[REG_RIP] = ip as i64;
    assert((ip as i64) as usize == ip) by (bit_vector);
}

} // verus!
