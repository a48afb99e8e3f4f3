//! Code versions: the compiled modules that a thread has entered.

use vstd::prelude::*;
use std::collections::HashMap;
use crate::error::ExceptionCode;

verus! {

/// Trap codes of a module by the offset of the trapping instruction.
#[derive(Clone, Debug, PartialEq, Eq)]
pub struct ExceptionTable {
    /// Maps the offset of an instruction from the code base to the trap
    /// code that the instruction raises.
    pub offset_to_code: HashMap<usize, ExceptionCode>,
}

/// One compiled module, as the fault dispatcher sees it.
#[derive(Clone, Debug, PartialEq, Eq)]
pub struct CodeVersion {
    /// Address of the first byte of code.
    pub base: usize,
    /// Size of the code in bytes.
    pub total_size: usize,
    /// Length in bytes of an inline breakpoint on the host architecture, if
    /// the module's code generator emits inline breakpoints.
    pub inline_breakpoint_size: Option<usize>,
    /// The module's exception table, if it has one.
    pub exception_table: Option<ExceptionTable>,
}

/// Where an inline breakpoint may sit: `len` bytes of code at `addr`, to be
/// decoded by the module of code version number `version`.
#[derive(Clone, Copy, Debug, PartialEq, Eq, Structural)]
pub struct InlineSite {
    /// Position of the code version among the entered ones, oldest first.
    pub version: usize,
    /// Address of the bytes to decode.
    pub addr: usize,
    /// Number of bytes to decode.
    pub len: usize,
}

impl CodeVersion {
    /// Address one past the last byte of code.
    pub open spec fn end(self) -> int {
        self.base + self.total_size
    }

    /// Whether `ip` points into the code.
    pub open spec fn contains(self, ip: usize) -> bool {
        self.base <= ip < self.end()
    }

    /// Length of the inline breakpoint that may sit at `ip`: the module's
    /// inline breakpoint size, where a breakpoint of that size ends within
    /// the code.
    pub open spec fn inline_len(self, ip: usize) -> Option<usize> {
        match self.inline_breakpoint_size {
            Some(len) => if ip + len <= self.end() && ip + len <= usize::MAX {
                Some(len)
            } else {
                None
            },
            None => None,
        }
    }

    /// The trap code that the exception table gives for the instruction at
    /// `ip`.
    pub open spec fn exception_code(self, ip: usize) -> Option<ExceptionCode> {
        match self.exception_table {
            Some(table) => if self.contains(ip) && table.offset_to_code@.contains_key(
                (ip - self.base) as usize,
            ) {
                Some(table.offset_to_code@[(ip - self.base) as usize])
            } else {
                None
            },
            None => None,
        }
    }

    /// Returns whether `ip` points into the code.
    pub fn contains_address(&self, ip: usize) -> (inside: bool)
        ensures
            inside == self.contains(ip),
    {
        ip >= self.base && ip - self.base < self.total_size
    }

    /// Returns the length of the inline breakpoint that may sit at `ip`.
    pub fn inline_breakpoint_len(&self, ip: usize) -> (len: Option<usize>)
        requires
            self.contains(ip),
        ensures
            len == self.inline_len(ip),
    {
        match self.inline_breakpoint_size {
            Some(len) => {
                if len <= self.total_size - (ip - self.base) && len <= usize::MAX - ip {
                    Some(len)
                } else {
                    None
                }
            },
            None => None,
        }
    }

    /// Looks up the trap code of the instruction at `ip`.
    pub fn lookup_exception(&self, ip: usize) -> (code: Option<ExceptionCode>)
        ensures
            code == self.exception_code(ip),
    {
        broadcast use vstd::std_specs::hash::group_hash_axioms;
        match &self.exception_table {
            Some(table) => {
                if self.contains_address(ip) {
                    match table.offset_to_code.get(&(ip - self.base)) {
                        Some(code) => Some(*code),
                        None => None,
                    }
                } else {
                    None
                }
            },
            None => None,
        }
    }
}

/// Whether code version `k` is the most recently entered one that holds
/// `ip`.
pub open spec fn is_innermost(versions: Seq<CodeVersion>, ip: usize, k: int) -> bool {
    &&& 0 <= k < versions.len()
    &&& versions[k].contains(ip)
    &&& forall|j: int| k < j < versions.len() ==> !(#[trigger] versions[j]).contains(ip)
}

/// Where to look for an inline breakpoint at `ip`: in the most recently
/// entered code version that holds `ip`, if an inline breakpoint of that
/// module fits there. Older code versions are not consulted.
pub open spec fn inline_site(versions: Seq<CodeVersion>, ip: usize) -> Option<InlineSite> {
    if exists|k: int| is_innermost(versions, ip, k) {
        let k = choose|k: int| is_innermost(versions, ip, k);
        match versions[k].inline_len(ip) {
            Some(len) => Some(InlineSite { version: k as usize, addr: ip, len }),
            None => None,
        }
    } else {
        None
    }
}

/// Whether code version `k` is the first entered one whose exception table
/// classifies the instruction at `ip`.
pub open spec fn is_first_classifier(versions: Seq<CodeVersion>, ip: usize, k: int) -> bool {
    &&& 0 <= k < versions.len()
    &&& versions[k].exception_code(ip) is Some
    &&& forall|j: int| 0 <= j < k ==> (#[trigger] versions[j]).exception_code(ip) is None
}

/// The trap code of the instruction at `ip`: that of the first entered code
/// version whose exception table classifies it.
pub open spec fn exception_code_at(versions: Seq<CodeVersion>, ip: usize) -> Option<
    ExceptionCode,
> {
    if exists|k: int| is_first_classifier(versions, ip, k) {
        versions[choose|k: int| is_first_classifier(versions, ip, k)].exception_code(ip)
    } else {
        None
    }
}

/// Finds where to look for an inline breakpoint at `ip`.
pub fn find_inline_site(versions: &Vec<CodeVersion>, ip: usize) -> (site: Option<InlineSite>)
    ensures
        site == inline_site(versions@, ip),
{
    let mut i: usize = versions.len();
    while i > 0
        invariant
            i <= versions.len(),
            forall|j: int| i <= j < versions.len() ==> !(#[trigger] versions@[j]).contains(ip),
        decreases i,
    {
        i = i - 1;
        if versions[i].contains_address(ip) {
            assert(is_innermost(versions@, ip, i as int));
            assert forall|k: int| is_innermost(versions@, ip, k) implies k == i by {
                if k < i {
                    assert(!versions@[i as int].contains(ip));
                }
            }
            return match versions[i].inline_breakpoint_len(ip) {
                Some(len) => Some(InlineSite { version: i, addr: ip, len }),
                None => None,
            };
        }
    }
    None
}

/// Finds the trap code of the instruction at `ip`.
pub fn find_exception_code(versions: &Vec<CodeVersion>, ip: usize) -> (code: Option<
    ExceptionCode,
>)
    ensures
        code == exception_code_at(versions@, ip),
{
    let mut i: usize = 0;
    while i < versions.len()
        invariant
            i <= versions.len(),
            forall|j: int| 0 <= j < i ==> (#[trigger] versions@[j]).exception_code(ip) is None,
        decreases versions.len() - i,
    {
        let found = versions[i].lookup_exception(ip);
        if found.is_some() {
            assert(is_first_classifier(versions@, ip, i as int));
            assert forall|k: int| is_first_classifier(versions@, ip, k) implies k == i by {
                if k > i {
                    assert(versions@[i as int].exception_code(ip) is None);
                }
            }
            return found;
        }
        i = i + 1;
    }
    None
}

} // verus!
