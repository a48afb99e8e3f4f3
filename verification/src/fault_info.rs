//! The uniform description of a hardware fault.

use vstd::prelude::*;
use crate::registers::{GPR, X64Register};

verus! {

/// A hardware fault as the signal context describes it.
#[derive(Clone, Copy, Debug, PartialEq, Eq)]
pub struct FaultInfo {
    /// Address whose access faulted.
    pub faulting_addr: usize,
    /// Program counter of the faulting instruction. The host writes the
    /// value it is told to resume at back into the signal context.
    pub ip: usize,
    /// Registers that the signal context captured, by canonical slot.
    pub known_registers: [Option<u64>; 32],
}

/// What a stack walker needs to rebuild the guest's execution state.
#[derive(Clone, Copy, Debug, PartialEq, Eq)]
pub struct StackWalkRequest {
    /// Address of the top of the guest stack.
    pub stack_pointer: usize,
    /// Registers at the time of the fault, by canonical slot.
    pub initial_registers: [Option<u64>; 32],
    /// Program counter at the time of the fault.
    pub initial_address: Option<u64>,
    /// Number of frames to walk at most.
    pub max_depth: Option<usize>,
}

impl FaultInfo {
    /// Value of register `r`, if the context captured it.
    pub open spec fn register(self, r: X64Register) -> Option<u64> {
        self.known_registers@[r.slot()]
    }

    /// The guest's stack pointer, if the context captured it.
    pub open spec fn stack_pointer(self) -> Option<u64> {
        self.register(X64Register::GPR(GPR::RSP))
    }

    /// The request that [`FaultInfo::read_stack`] makes: none without a
    /// stack pointer, else a walk from the stack pointer with the captured
    /// registers and the faulting program counter.
    pub open spec fn stack_walk(self, max_depth: Option<usize>) -> Option<StackWalkRequest> {
        match self.stack_pointer() {
            None => None,
            Some(rsp) => Some(
                StackWalkRequest {
                    stack_pointer: rsp as usize,
                    initial_registers: self.known_registers,
                    initial_address: Some(self.ip as u64),
                    max_depth,
                },
            ),
        }
    }

    /// Returns the value of register `r`, if the context captured it.
    pub fn get_register(&self, r: X64Register) -> (value: Option<u64>)
        ensures
            value == self.register(r),
    {
        self.known_registers[r.to_index().0]
    }

    /// Prepares the walk of the guest stack that builds an execution state
    /// image; the host runs the walker over its live code versions.
    pub fn read_stack(&self, max_depth: Option<usize>) -> (request: Option<StackWalkRequest>)
        ensures
            request == self.stack_walk(max_depth),
    {
        match self.get_register(X64Register::GPR(GPR::RSP)) {
            None => None,
            Some(rsp) => Some(
                StackWalkRequest {
                    stack_pointer: rsp as usize,
                    initial_registers: self.known_registers,
                    initial_address: Some(self.ip as u64),
                    max_depth,
                },
            ),
        }
    }
}

} // verus!
