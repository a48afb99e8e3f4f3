//! The canonical register numbering of a fault.
//!
//! Registers are numbered as x86_64 guest code sees them, whatever the host:
//! the sixteen general purpose registers come first, in their machine
//! encoding order, followed by the sixteen XMM registers.

use vstd::prelude::*;

verus! {

/// Number of general purpose registers.
pub const GPR_COUNT: usize = 16;

/// Number of XMM registers.
pub const XMM_COUNT: usize = 16;

/// Number of slots in a register file: general purpose registers, then XMM.
pub const REGISTER_COUNT: usize = 32;

/// General purpose registers.
#[derive(Clone, Copy, Debug, PartialEq, Eq, Structural)]
pub enum GPR {
    RAX,
    RCX,
    RDX,
    RBX,
    RSP,
    RBP,
    RSI,
    RDI,
    R8,
    R9,
    R10,
    R11,
    R12,
    R13,
    R14,
    R15,
}

/// XMM registers.
#[derive(Clone, Copy, Debug, PartialEq, Eq, Structural)]
pub enum XMM {
    XMM0,
    XMM1,
    XMM2,
    XMM3,
    XMM4,
    XMM5,
    XMM6,
    XMM7,
    XMM8,
    XMM9,
    XMM10,
    XMM11,
    XMM12,
    XMM13,
    XMM14,
    XMM15,
}

/// A register of the canonical register file.
#[derive(Clone, Copy, Debug, PartialEq, Eq, Structural)]
pub enum X64Register {
    /// A general purpose register.
    GPR(GPR),
    /// An XMM register.
    XMM(XMM),
}

/// Position of a register in the canonical register file.
#[derive(Clone, Copy, Debug, PartialEq, Eq, Structural)]
pub struct RegisterIndex(pub usize);

impl GPR {
    /// The machine encoding of the register, `0..16`.
    pub open spec fn number(self) -> int {
        match self {
            GPR::RAX => 0,
            GPR::RCX => 1,
            GPR::RDX => 2,
            GPR::RBX => 3,
            GPR::RSP => 4,
            GPR::RBP => 5,
            GPR::RSI => 6,
            GPR::RDI => 7,
            GPR::R8 => 8,
            GPR::R9 => 9,
            GPR::R10 => 10,
            GPR::R11 => 11,
            GPR::R12 => 12,
            GPR::R13 => 13,
            GPR::R14 => 14,
            GPR::R15 => 15,
        }
    }
}

impl XMM {
    /// The machine encoding of the register, `0..16`.
    pub open spec fn number(self) -> int {
        match self {
            XMM::XMM0 => 0,
            XMM::XMM1 => 1,
            XMM::XMM2 => 2,
            XMM::XMM3 => 3,
            XMM::XMM4 => 4,
            XMM::XMM5 => 5,
            XMM::XMM6 => 6,
            XMM::XMM7 => 7,
            XMM::XMM8 => 8,
            XMM::XMM9 => 9,
            XMM::XMM10 => 10,
            XMM::XMM11 => 11,
            XMM::XMM12 => 12,
            XMM::XMM13 => 13,
            XMM::XMM14 => 14,
            XMM::XMM15 => 15,
        }
    }
}

impl X64Register {
    /// Slot of the register in the canonical register file: a general
    /// purpose register sits at its machine encoding, an XMM register
    /// sixteen slots further.
    pub open spec fn slot(self) -> int {
        match self {
            X64Register::GPR(r) => r.number(),
            X64Register::XMM(r) => 16 + r.number(),
        }
    }

    /// Returns the slot of the register in the canonical register file.
    pub fn to_index(&self) -> (index: RegisterIndex)
        ensures
            index.0 == self.slot(),
            index.0 < REGISTER_COUNT,
    {
        match *self {
            X64Register::GPR(r) => RegisterIndex(gpr_number(r)),
            X64Register::XMM(r) => RegisterIndex(16 + xmm_number(r)),
        }
    }
}

/// Returns the machine encoding of a general purpose register.
pub fn gpr_number(r: GPR) -> (n: usize)
    ensures
        n == r.number(),
        n < GPR_COUNT,
{
    match r {
        GPR::RAX => 0,
        GPR::RCX => 1,
        GPR::RDX => 2,
        GPR::RBX => 3,
        GPR::RSP => 4,
        GPR::RBP => 5,
        GPR::RSI => 6,
        GPR::RDI => 7,
        GPR::R8 => 8,
        GPR::R9 => 9,
        GPR::R10 => 10,
        GPR::R11 => 11,
        GPR::R12 => 12,
        GPR::R13 => 13,
        GPR::R14 => 14,
        GPR::R15 => 15,
    }
}

/// Returns the machine encoding of an XMM register.
pub fn xmm_number(r: XMM) -> (n: usize)
    ensures
        n == r.number(),
        n < XMM_COUNT,
{
    match r {
        XMM::XMM0 => 0,
        XMM::XMM1 => 1,
        XMM::XMM2 => 2,
        XMM::XMM3 => 3,
        XMM::XMM4 => 4,
        XMM::XMM5 => 5,
        XMM::XMM6 => 6,
        XMM::XMM7 => 7,
        XMM::XMM8 => 8,
        XMM::XMM9 => 9,
        XMM::XMM10 => 10,
        XMM::XMM11 => 11,
        XMM::XMM12 => 12,
        XMM::XMM13 => 13,
        XMM::XMM14 => 14,
        XMM::XMM15 => 15,
    }
}

/// Slots are in one-to-one correspondence with registers: two registers
/// that share a slot are the same register.
pub proof fn lemma_slot_injective(a: X64Register, b: X64Register)
    requires
        a.slot() == b.slot(),
    ensures
        a == b,
{
}

/// Every slot of a register file is the slot of a register: who knows what
/// a register file holds of each register knows the whole file.
pub proof fn lemma_slot_surjective(i: int)
    requires
        0 <= i < REGISTER_COUNT,
    ensures
        exists|r: X64Register| #[trigger] r.slot() == i,
{
    if i < 16 {
        let g = if i == 0 {
            GPR::RAX
        } else if i == 1 {
            GPR::RCX
        } else if i == 2 {
            GPR::RDX
        } else if i == 3 {
            GPR::RBX
        } else if i == 4 {
            GPR::RSP
        } else if i == 5 {
            GPR::RBP
        } else if i == 6 {
            GPR::RSI
        } else if i == 7 {
            GPR::RDI
        } else if i == 8 {
            GPR::R8
        } else if i == 9 {
            GPR::R9
        } else if i == 10 {
            GPR::R10
        } else if i == 11 {
            GPR::R11
        } else if i == 12 {
            GPR::R12
        } else if i == 13 {
            GPR::R13
        } else if i == 14 {
            GPR::R14
        } else {
            GPR::R15
        };
        assert(X64Register::GPR(g).slot() == i);
    } else {
        let x = if i == 16 {
            XMM::XMM0
        } else if i == 17 {
            XMM::XMM1
        } else if i == 18 {
            XMM::XMM2
        } else if i == 19 {
            XMM::XMM3
        } else if i == 20 {
            XMM::XMM4
        } else if i == 21 {
            XMM::XMM5
        } else if i == 22 {
            XMM::XMM6
        } else if i == 23 {
            XMM::XMM7
        } else if i == 24 {
            XMM::XMM8
        } else if i == 25 {
            XMM::XMM9
        } else if i == 26 {
            XMM::XMM10
        } else if i == 27 {
            XMM::XMM11
        } else if i == 28 {
            XMM::XMM12
        } else if i == 29 {
            XMM::XMM13
        } else if i == 30 {
            XMM::XMM14
        } else {
            XMM::XMM15
        };
        assert(X64Register::XMM(x).slot() == i);
    }
}

} // verus!
