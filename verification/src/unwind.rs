//! Scoped non-local return.
//!
//! Guest code runs within [`catch_unsafe_unwind`], which makes a fresh
//! unwind frame the thread's active one for as long as the guest runs. A
//! fault handler, or the guest's host functions, leave the scope early with
//! [`begin_unsafe_unwind`]: the error goes into the frame's payload and
//! control goes back to the catcher, past every native frame in between.
//! The transfer of control itself is the host's, by a jump buffer; here it
//! shows as the guest's way of leaving, [`GuestExit::Unwound`].

use vstd::prelude::*;
use crate::error::RuntimeError;
use crate::thread::{registered, BreakpointMap, Ctx, ThreadState, UnwindInfo};

verus! {

/// How control came back from guest code.
#[derive(Debug, PartialEq, Eq)]
pub enum GuestExit<R> {
    /// The guest returned a value.
    Returned(R),
    /// An unwind was begun: the error is in the payload of the active
    /// frame.
    Unwound,
}

/// What a catcher yields for the way the guest left: the guest's value, or
/// the payload that the unwind left in the frame.
pub open spec fn catch_result<R, I, U>(exit: GuestExit<R>, after: ThreadState<I, U>) -> Result<
    R,
    RuntimeError<I, U>,
> {
    match exit {
        GuestExit::Returned(value) => Ok(value),
        GuestExit::Unwound => Err(after.unwind->0.payload->0),
    }
}

/// Runs a callback function with the given `Ctx` as the thread's current
/// instance context, and puts the previous one back afterwards.
pub fn with_ctx<R, I, U, F>(thread: &mut ThreadState<I, U>, ctx: Option<Ctx>, cb: F) -> (ret: R)
    where F: FnOnce(&mut ThreadState<I, U>) -> R
    requires
        forall|t: &mut ThreadState<I, U>| *t == old(thread).with_ctx(ctx) ==> call_requires(cb, (t,)),
    ensures
        final(thread).current_ctx == old(thread).current_ctx,
        exists|t: &mut ThreadState<I, U>|
            *t == old(thread).with_ctx(ctx) && #[trigger] call_ensures(cb, (t,), ret)
                && *final(thread) == final(t).with_ctx(old(thread).current_ctx),
{
    let saved = thread.current_ctx;
    thread.current_ctx = ctx;
    let ret = cb(thread);
    thread.current_ctx = saved;
    ret
}

/// Enters the scope of a catch: a fresh frame with the given breakpoints
/// becomes the active one. Returns the frame that was active before, which
/// the catcher keeps until it leaves the scope.
pub fn enter_catch_scope<I, U>(
    thread: &mut ThreadState<I, U>,
    breakpoints: Option<BreakpointMap>,
) -> (saved: Option<UnwindInfo<I, U>>)
    ensures
        saved == old(thread).unwind,
        *final(thread) == old(thread).entered(breakpoints),
{
    let saved = thread.unwind.take();
    thread.unwind = Some(UnwindInfo::new(breakpoints));
    saved
}

/// Leaves the scope of a catch after the guest returned: the frame that
/// was active before the scope is active again.
pub fn leave_catch_scope<I, U>(thread: &mut ThreadState<I, U>, saved: Option<UnwindInfo<I, U>>)
    ensures
        *final(thread) == old(thread).with_unwind(saved),
{
    thread.unwind = saved;
}

/// Leaves the scope of a catch after an unwind: takes the payload out of
/// the active frame and makes the frame that was active before the scope
/// active again. An unwind always leaves a payload.
pub fn leave_unwound_scope<I, U>(
    thread: &mut ThreadState<I, U>,
    saved: Option<UnwindInfo<I, U>>,
) -> (error: RuntimeError<I, U>)
    requires
        old(thread).has_payload(),
    ensures
        error == old(thread).unwind->0.payload->0,
        *final(thread) == old(thread).with_unwind(saved),
{
    let frame = thread.unwind.take();
    thread.unwind = saved;
    frame.unwrap().payload.unwrap()
}

/// Catches an unsafe unwind with the given functions and breakpoints.
///
/// The thread's unwind frame is saved and a fresh one, with the given
/// breakpoints and no payload, takes its place while `f` runs. Whichever
/// way `f` leaves, the saved frame is put back. The result is the value
/// that `f` returned, or the payload of the unwind that cut it short.
pub fn catch_unsafe_unwind<R, I, U, F>(
    thread: &mut ThreadState<I, U>,
    f: F,
    breakpoints: Option<BreakpointMap>,
) -> (res: Result<R, RuntimeError<I, U>>)
    where F: FnOnce(&mut ThreadState<I, U>) -> GuestExit<R>
    requires
        forall|t: &mut ThreadState<I, U>|
            *t == old(thread).entered(breakpoints) ==> call_requires(f, (t,)),
        forall|t: &mut ThreadState<I, U>, exit: GuestExit<R>|
            *t == old(thread).entered(breakpoints) && call_ensures(f, (t,), exit)
                && exit is Unwound ==> final(t).has_payload(),
    ensures
        final(thread).unwind == old(thread).unwind,
        exists|t: &mut ThreadState<I, U>, exit: GuestExit<R>|
            *t == old(thread).entered(breakpoints) && #[trigger] call_ensures(f, (t,), exit)
                && res == catch_result(exit, *final(t))
                && *final(thread) == final(t).with_unwind(old(thread).unwind),
{
    let saved = enter_catch_scope(thread, breakpoints);
    let exit = f(thread);
    match exit {
        GuestExit::Returned(value) => {
            leave_catch_scope(thread, saved);
            Ok(value)
        },
        GuestExit::Unwound => Err(leave_unwound_scope(thread, saved)),
    }
}

/// Begins an unsafe unwind: moves `error` into the payload of the active
/// frame and leaves for the catcher. There must be a catcher: an unwind
/// outside the scope of any [`catch_unsafe_unwind`] is a fatal error of the
/// caller.
pub fn begin_unsafe_unwind<R, I, U>(thread: &mut ThreadState<I, U>, error: RuntimeError<I, U>) -> (exit:
    GuestExit<R>)
    requires
        old(thread).in_catch_scope(),
    ensures
        exit is Unwound,
        *final(thread) == old(thread).with_unwind(Some(old(thread).unwind->0.with_payload(error))),
{
    let frame = thread.unwind.take().unwrap();
    thread.unwind = Some(
        UnwindInfo { jmpbuf: frame.jmpbuf, breakpoints: frame.breakpoints, payload: Some(error) },
    );
    GuestExit::Unwound
}

/// Runs `f` on the breakpoint map of the active frame. There must be an
/// active frame.
pub fn with_breakpoint_map<R, I, U, F>(thread: &ThreadState<I, U>, f: F) -> (ret: R)
    where F: FnOnce(Option<&BreakpointMap>) -> R
    requires
        thread.in_catch_scope(),
        call_requires(f, (borrowed(&thread.unwind->0.breakpoints),)),
    ensures
        call_ensures(f, (borrowed(&thread.unwind->0.breakpoints),), ret),
{
    match &thread.unwind {
        Some(frame) => f(frame.breakpoints.as_ref()),
        None => vstd::pervasive::unreached(),
    }
}

/// A breakpoint map as a callback sees it: borrowed, if there is one.
pub open spec fn borrowed(breakpoints: &Option<BreakpointMap>) -> Option<&BreakpointMap> {
    match breakpoints {
        Some(map) => Some(map),
        None => None,
    }
}

/// Looks up the handle of the breakpoint callback registered at `addr` in
/// the active frame. There must be an active frame.
pub fn lookup_breakpoint<I, U>(thread: &ThreadState<I, U>, addr: usize) -> (callback: Option<usize>)
    requires
        thread.in_catch_scope(),
    ensures
        callback == thread.breakpoint_at(addr),
{
    broadcast use vstd::std_specs::hash::group_hash_axioms;
    let ghost breakpoints = thread.unwind->0.breakpoints;
    let find = |map: Option<&BreakpointMap>| -> (found: Option<usize>)
        requires
            map == borrowed(&breakpoints),
        ensures
            found == registered(breakpoints, addr),
        {
            match map {
                Some(m) => match m.get(&addr) {
                    Some(handle) => Some(*handle),
                    None => None,
                },
                None => None,
            }
        };
    with_breakpoint_map(thread, find)
}

/// A scope that is entered and left leaves the thread as it was: the frame
/// that was active before the scope is restored identically.
pub proof fn lemma_scope_restores<I, U>(
    thread: ThreadState<I, U>,
    breakpoints: Option<BreakpointMap>,
)
    ensures
        thread.entered(breakpoints).in_catch_scope(),
        !thread.entered(breakpoints).has_payload(),
        thread.entered(breakpoints).breakpoints() == breakpoints,
        thread.entered(breakpoints).with_unwind(thread.unwind) == thread,
{
}

/// The error that an unwind moves into the active frame is the error that
/// the catcher of the scope yields.
pub proof fn lemma_unwind_reaches_catcher<R, I, U>(thread: ThreadState<I, U>, error: RuntimeError<I, U>)
    requires
        thread.in_catch_scope(),
    ensures
        thread.with_unwind(Some(thread.unwind->0.with_payload(error))).has_payload(),
        catch_result::<R, I, U>(
            GuestExit::Unwound,
            thread.with_unwind(Some(thread.unwind->0.with_payload(error))),
        ) == Err::<R, RuntimeError<I, U>>(error),
{
}

} // verus!
