//! Running a closure on a stack of its own.
//!
//! A signal handler runs on the small alternate signal stack that the
//! kernel switches to, so the fault dispatcher does its heavy work on a
//! larger stack that is allocated for the purpose. On x86_64 the host
//! enters that stack through an assembly routine, which expects the frame
//! that [`prepare_stack`] lays out; elsewhere the closure simply runs in
//! place.

use vstd::prelude::*;

verus! {

/// Size in bytes of the stack on which the fault dispatcher works.
pub const TRAP_STACK_SIZE: usize = 1048576;

/// Number of register slots that the entry routine loads from the prepared
/// stack before it transfers control. The routine is written against this
/// number.
pub const NUM_SAVED_REGISTERS: usize = 31;

/// Distance in words from the end of the stack to the slot that holds the
/// address at which execution starts.
pub const ENTRY_SLOT: usize = 4;

/// Distance in words from the entry slot down to the slot of the register
/// that passes the first argument.
pub const FIRST_ARGUMENT_SLOT: usize = 10;

/// A stack that is ready to be entered.
#[derive(Clone, Debug, PartialEq, Eq)]
pub struct PreparedStack {
    /// The words of the stack, lowest address first.
    pub words: Vec<u64>,
    /// Index of the first saved register slot, where the entry routine
    /// starts to load.
    pub begin: usize,
    /// Index one past the last word.
    pub end: usize,
}

/// Whether `size` can be the size in bytes of a stack: a multiple of 16
/// that is at least 4096.
pub open spec fn valid_stack_size(size: usize) -> bool {
    size % 16 == 0 && size >= 4096
}

/// The content of a prepared stack of `len` words: the address of the
/// thunk in the entry slot, the address of the thunk's argument ten slots
/// below, and zero everywhere else.
pub open spec fn prepared_words(len: int, thunk: u64, argument: u64) -> Seq<u64> {
    Seq::new(
        len as nat,
        |i: int|
            if i == len - ENTRY_SLOT {
                thunk
            } else if i == len - ENTRY_SLOT - FIRST_ARGUMENT_SLOT {
                argument
            } else {
                0u64
            },
    )
}

/// Lays out a stack of `size` bytes that starts to execute the thunk at
/// address `thunk` with `argument` as its first argument.
///
/// The stack is `size / 8` words of zero, but for two of them: the entry
/// slot, four words below the end, holds the thunk, and the slot ten words
/// below that holds the argument. The entry routine loads its registers
/// from the slot 31 words below the entry slot upwards.
pub fn prepare_stack(size: usize, thunk: u64, argument: u64) -> (stack: PreparedStack)
    requires
        valid_stack_size(size),
    ensures
        stack.words@ == prepared_words(size as int / 8, thunk, argument),
        stack.end == size / 8,
        stack.begin == stack.end - ENTRY_SLOT - NUM_SAVED_REGISTERS,
{
    let mut words: Vec<u64> = vec![0u64; size / 8];
    let end_offset: usize = words.len();
    words[end_offset - ENTRY_SLOT] = thunk;
    words[end_offset - ENTRY_SLOT - FIRST_ARGUMENT_SLOT] = argument;
    assert(words@ =~= prepared_words(size as int / 8, thunk, argument));
    PreparedStack { words, begin: end_offset - ENTRY_SLOT - NUM_SAVED_REGISTERS, end: end_offset }
}

/// Allocates and runs with the given stack size and closure: returns what
/// the closure returns. This is the form for hosts without an entry
/// routine, which runs the closure in place; a host with one enters the
/// stack that [`prepare_stack`] lays out and obtains the same value.
pub fn allocate_and_run<R, F: FnOnce() -> R>(size: usize, f: F) -> (ret: R)
    requires
        call_requires(f, ()),
    ensures
        call_ensures(f, (), ret),
{
    f()
}

} // verus!
