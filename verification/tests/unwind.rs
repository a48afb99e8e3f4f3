use std::collections::HashMap;
use wasm_fault::code_version::CodeVersion;
use wasm_fault::error::{InvokeError, RuntimeError};
use wasm_fault::thread::{
    get_boundary_register_preservation, pop_code_version, push_code_version,
    was_sigint_triggered_fault, BoundaryRegisterPreservation, BreakpointMap, Ctx, ThreadState,
    SETJMP_BUFFER_LEN,
};
use wasm_fault::unwind::{
    begin_unsafe_unwind, catch_unsafe_unwind, enter_catch_scope, leave_catch_scope,
    leave_unwound_scope, lookup_breakpoint, with_breakpoint_map, with_ctx, GuestExit,
};

type Thread = ThreadState<String, String>;
type Error = RuntimeError<String, String>;

fn version(base: usize) -> CodeVersion {
    CodeVersion { base, total_size: 0x100, inline_breakpoint_size: None, exception_table: None }
}

fn breakpoints(entries: &[(usize, usize)]) -> BreakpointMap {
    let mut map = HashMap::new();
    for (addr, callback) in entries {
        map.insert(*addr, *callback);
    }
    map
}

#[test]
fn new_thread_is_outside_any_scope() {
    let thread = Thread::new();
    assert!(thread.unwind.is_none());
    assert!(thread.current_ctx.is_none());
    assert!(thread.code_versions.is_empty());
    assert!(!was_sigint_triggered_fault(&thread));
    assert_eq!(
        thread.boundary_register_preservation,
        BoundaryRegisterPreservation { r15: 0, r14: 0, r13: 0, r12: 0, rbx: 0 }
    );
    assert_eq!(BoundaryRegisterPreservation::default(), thread.boundary_register_preservation);
}

#[test]
fn successful_call() {
    let mut thread = Thread::new();
    assert!(thread.unwind.is_none());
    let result = catch_unsafe_unwind(&mut thread, |_t: &mut Thread| GuestExit::Returned(42), None);
    assert_eq!(result, Ok(42));
    assert!(thread.unwind.is_none());
}

#[test]
fn catch_installs_a_fresh_frame_for_the_guest() {
    let mut thread = Thread::new();
    let map = breakpoints(&[(0x40, 1)]);
    let result = catch_unsafe_unwind(
        &mut thread,
        |t: &mut Thread| {
            let frame = t.unwind.as_ref().unwrap();
            assert_eq!(frame.jmpbuf, [0i32; 128]);
            assert_eq!(frame.jmpbuf.len(), SETJMP_BUFFER_LEN);
            assert_eq!(frame.breakpoints, Some(breakpoints(&[(0x40, 1)])));
            assert!(frame.payload.is_none());
            GuestExit::Returned(())
        },
        Some(map),
    );
    assert_eq!(result, Ok(()));
    assert!(thread.unwind.is_none());
}

#[test]
fn unwind_carries_the_payload_to_the_catcher() {
    let mut thread = Thread::new();
    let result: Result<u32, Error> = catch_unsafe_unwind(
        &mut thread,
        |t: &mut Thread| {
            begin_unsafe_unwind(t, RuntimeError::InvokeError(InvokeError::FailedWithNoError))
        },
        None,
    );
    assert_eq!(result, Err(RuntimeError::InvokeError(InvokeError::FailedWithNoError)));
    assert!(thread.unwind.is_none());
}

#[test]
fn begin_unwind_fills_the_active_frame() {
    let mut thread = Thread::new();
    let _: Result<(), Error> = catch_unsafe_unwind(
        &mut thread,
        |t: &mut Thread| {
            let exit: GuestExit<()> = begin_unsafe_unwind(t, RuntimeError::User("boom".to_string()));
            assert_eq!(exit, GuestExit::Unwound);
            let frame = t.unwind.as_ref().unwrap();
            assert_eq!(frame.payload, Some(RuntimeError::User("boom".to_string())));
            assert_eq!(frame.breakpoints, Some(breakpoints(&[(1, 2)])));
            assert_eq!(frame.jmpbuf, [0i32; 128]);
            exit
        },
        Some(breakpoints(&[(1, 2)])),
    );
}

#[test]
fn nested_scopes_restore_the_outer_frame() {
    let mut thread = Thread::new();
    let outer = catch_unsafe_unwind(
        &mut thread,
        |t: &mut Thread| {
            let inner: Result<u8, Error> = catch_unsafe_unwind(
                t,
                |t: &mut Thread| {
                    assert_eq!(lookup_breakpoint(t, 0x10), None);
                    assert_eq!(lookup_breakpoint(t, 0x20), Some(2));
                    begin_unsafe_unwind(t, RuntimeError::User("inner".to_string()))
                },
                Some(breakpoints(&[(0x20, 2)])),
            );
            assert_eq!(inner, Err(RuntimeError::User("inner".to_string())));
            let frame = t.unwind.as_ref().unwrap();
            assert_eq!(frame.breakpoints, Some(breakpoints(&[(0x10, 1)])));
            assert!(frame.payload.is_none());
            assert_eq!(lookup_breakpoint(t, 0x10), Some(1));
            assert_eq!(lookup_breakpoint(t, 0x20), None);
            GuestExit::Returned(7)
        },
        Some(breakpoints(&[(0x10, 1)])),
    );
    assert_eq!(outer, Ok(7));
    assert!(thread.unwind.is_none());
}

#[test]
fn an_unwind_of_the_outer_scope_passes_a_finished_inner_scope() {
    let mut thread = Thread::new();
    let outer: Result<u8, Error> = catch_unsafe_unwind(
        &mut thread,
        |t: &mut Thread| {
            let inner = catch_unsafe_unwind(t, |_t: &mut Thread| GuestExit::Returned(1u8), None);
            assert_eq!(inner, Ok(1));
            begin_unsafe_unwind(t, RuntimeError::InstanceImage("image".to_string()))
        },
        None,
    );
    assert_eq!(outer, Err(RuntimeError::InstanceImage("image".to_string())));
    assert!(thread.unwind.is_none());
}

#[test]
fn catch_keeps_what_the_guest_did_to_the_rest_of_the_thread() {
    let mut thread = Thread::new();
    let result = catch_unsafe_unwind(
        &mut thread,
        |t: &mut Thread| {
            push_code_version(t, version(0x1000));
            t.was_sigint_triggered = true;
            GuestExit::Returned(())
        },
        None,
    );
    assert_eq!(result, Ok(()));
    assert_eq!(thread.code_versions, vec![version(0x1000)]);
    assert!(was_sigint_triggered_fault(&thread));
    assert!(thread.unwind.is_none());
}

#[test]
fn with_breakpoint_map_hands_out_the_map_of_the_active_frame() {
    let mut thread = Thread::new();
    let _ = catch_unsafe_unwind(
        &mut thread,
        |t: &mut Thread| {
            let size = with_breakpoint_map(t, |map: Option<&BreakpointMap>| map.map(|m| m.len()));
            assert_eq!(size, Some(2));
            let at = with_breakpoint_map(t, |map: Option<&BreakpointMap>| {
                map.and_then(|m| m.get(&0x30).copied())
            });
            assert_eq!(at, Some(9));
            GuestExit::Returned(())
        },
        Some(breakpoints(&[(0x30, 9), (0x31, 10)])),
    );
    let _ = catch_unsafe_unwind(
        &mut thread,
        |t: &mut Thread| {
            let present = with_breakpoint_map(t, |map: Option<&BreakpointMap>| map.is_some());
            assert!(!present);
            assert_eq!(lookup_breakpoint(t, 0x30), None);
            GuestExit::Returned(())
        },
        None,
    );
}

#[test]
fn with_ctx_restores_the_previous_context() {
    let mut thread = Thread::new();
    let outer = Ctx { addr: 0x1000, interrupt_signal_mem: 0x9000 };
    let inner = Ctx { addr: 0x2000, interrupt_signal_mem: 0x9000 };
    let value = with_ctx(&mut thread, Some(outer), |t: &mut Thread| {
        assert_eq!(t.current_ctx, Some(outer));
        let nested = with_ctx(t, Some(inner), |t: &mut Thread| {
            assert_eq!(t.current_ctx, Some(inner));
            t.was_sigint_triggered = true;
            5
        });
        assert_eq!(t.current_ctx, Some(outer));
        let cleared = with_ctx(t, None, |t: &mut Thread| t.current_ctx);
        assert_eq!(cleared, None);
        assert_eq!(t.current_ctx, Some(outer));
        nested + 1
    });
    assert_eq!(value, 6);
    assert_eq!(thread.current_ctx, None);
    assert!(thread.was_sigint_triggered);
}

#[test]
fn code_versions_are_a_stack() {
    let mut thread = Thread::new();
    assert_eq!(pop_code_version(&mut thread), None);
    push_code_version(&mut thread, version(0x1000));
    push_code_version(&mut thread, version(0x2000));
    push_code_version(&mut thread, version(0x3000));
    assert_eq!(thread.code_versions, vec![version(0x1000), version(0x2000), version(0x3000)]);
    assert_eq!(pop_code_version(&mut thread), Some(version(0x3000)));
    assert_eq!(pop_code_version(&mut thread), Some(version(0x2000)));
    push_code_version(&mut thread, version(0x4000));
    assert_eq!(pop_code_version(&mut thread), Some(version(0x4000)));
    assert_eq!(pop_code_version(&mut thread), Some(version(0x1000)));
    assert_eq!(pop_code_version(&mut thread), None);
    assert!(thread.code_versions.is_empty());
}

#[test]
fn boundary_registers_stay_with_their_thread() {
    let mut first = Thread::new();
    let mut second = Thread::new();
    {
        let area = get_boundary_register_preservation(&mut first);
        assert_eq!(*area, BoundaryRegisterPreservation::default());
        area.r15 = 15;
        area.r14 = 14;
        area.r13 = 13;
        area.r12 = 12;
        area.rbx = 3;
    }
    let again = *get_boundary_register_preservation(&mut first);
    assert_eq!(again, BoundaryRegisterPreservation { r15: 15, r14: 14, r13: 13, r12: 12, rbx: 3 });
    assert_eq!(
        *get_boundary_register_preservation(&mut second),
        BoundaryRegisterPreservation::default()
    );
}

#[test]
fn a_scope_is_entered_and_left_by_hand() {
    let mut thread = Thread::new();
    let outer = enter_catch_scope(&mut thread, Some(breakpoints(&[(1, 1)])));
    assert!(outer.is_none());
    let inner = enter_catch_scope(&mut thread, None);
    assert_eq!(inner.as_ref().unwrap().breakpoints, Some(breakpoints(&[(1, 1)])));
    let exit: GuestExit<()> = begin_unsafe_unwind(&mut thread, RuntimeError::User("x".to_string()));
    assert_eq!(exit, GuestExit::Unwound);
    let error = leave_unwound_scope(&mut thread, inner);
    assert_eq!(error, RuntimeError::User("x".to_string()));
    let frame = thread.unwind.as_ref().unwrap();
    assert_eq!(frame.breakpoints, Some(breakpoints(&[(1, 1)])));
    assert!(frame.payload.is_none());
    leave_catch_scope(&mut thread, outer);
    assert_eq!(thread, Thread::new());
}
