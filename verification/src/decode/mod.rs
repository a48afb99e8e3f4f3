//! Register context decoders, one per supported operating system and host
//! architecture.
//!
//! Each decoder takes what the kernel delivered with a signal, as plain
//! values, and fills a [`FaultInfo`](crate::fault_info::FaultInfo). A decoder
//! cannot fail: a register that the context does not hold is absent from the
//! result. Each module also writes a program counter back into its context,
//! which is where the kernel resumes when the handler returns.

use vstd::prelude::*;
use crate::registers::{GPR, X64Register};

pub mod freebsd_aarch64;
pub mod freebsd_x86_64;
pub mod linux_aarch64;
pub mod linux_x86_64;
pub mod macos_x86_64;

verus! {

/// A 128-bit vector register as a floating point save area stores it: four
/// 32-bit elements, lowest first.
#[derive(Clone, Copy, Debug, PartialEq, Eq)]
pub struct XmmRegister {
    /// The four elements, lowest first.
    pub element: [u32; 4],
}

/// The low 64 bits of a vector register given by its two lowest elements.
pub open spec fn low64(e0: u32, e1: u32) -> u64 {
    (e0 as u64) | ((e1 as u64) << 32)
}

impl XmmRegister {
    /// The low 64 bits of the register, which is what a register file keeps.
    pub open spec fn low(self) -> u64 {
        low64(self.element@[0], self.element@[1])
    }
}

/// Returns the low 64 bits of a vector register.
pub fn read_xmm(reg: &XmmRegister) -> (value: u64)
    ensures
        value == reg.low(),
{
    (reg.element[0] as u64) | ((reg.element[1] as u64) << 32)
}

/// The low 64 bits hold the lowest element in their low half and the next
/// element in their high half.
pub proof fn lemma_low64_value(e0: u32, e1: u32)
    ensures
        low64(e0, e1) == e0 + e1 * 0x1_0000_0000,
{
    assert(((e0 as u64) | ((e1 as u64) << 32)) == e0 + e1 * 0x1_0000_0000) by (bit_vector);
}

/// Index of the aarch64 general register that stands for an x86_64 general
/// purpose register: the code generator keeps each guest register in the
/// host register of the same number, except the stack pointer, which lives
/// in `x28`.
pub open spec fn aarch64_source(r: GPR) -> int {
    match r {
        GPR::RSP => 28,
        _ => r.number(),
    }
}

/// Stores `value` as the captured content of register `r`.
pub fn set_register(registers: &mut [Option<u64>; 32], r: X64Register, value: u64)
    ensures
        final(registers)@ == old(registers)@.update(r.slot(), Some(value)),
{
    let index: usize = r.to_index().0;
    registers[index] = Some(value);
}

} // verus!
