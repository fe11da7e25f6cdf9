use guarden::guard::{GuardSlot, __fn};
use std::sync::atomic::{AtomicUsize, Ordering};
use std::sync::Arc;

/// Runs what a dropped guard runs: the action, on whatever the slot still holds.
fn drop_slot<C, R, A: FnOnce(C) -> R>(mut slot: GuardSlot<C, A>) -> Option<R> {
    slot.take().map(|parts| (parts.action)(parts.context))
}

#[test]
fn sync_disassemble() {
    let state = Arc::new(AtomicUsize::new(0));
    let mut guard = GuardSlot::assemble(state.clone(), |s: Arc<AtomicUsize>| {
        s.fetch_add(1, Ordering::SeqCst);
    });

    let (context, action) = guard.disassemble();
    assert_eq!(state.load(Ordering::SeqCst), 0);
    assert!(drop_slot(guard).is_none());

    action(context);
    assert_eq!(state.load(Ordering::SeqCst), 1);
}

#[test]
fn sync_defuse() {
    let state = Arc::new(AtomicUsize::new(0));
    let mut guard = GuardSlot::assemble(state.clone(), |s: Arc<AtomicUsize>| {
        s.fetch_add(1, Ordering::SeqCst);
    });

    let context = guard.defuse();
    assert!(drop_slot(guard).is_none());

    assert_eq!(state.load(Ordering::SeqCst), 0);
    assert_eq!(context.load(Ordering::SeqCst), 0);
}

#[test]
fn sync_trigger() {
    let state = Arc::new(AtomicUsize::new(0));
    let mut guard = GuardSlot::assemble(state.clone(), |s: Arc<AtomicUsize>| {
        s.fetch_add(1, Ordering::SeqCst);
        "result"
    });

    let (context, action) = guard.disassemble();
    let res = action(context);
    assert!(drop_slot(guard).is_none());

    assert_eq!(res, "result");
    assert_eq!(state.load(Ordering::SeqCst), 1);
}

#[test]
fn sync_map() {
    let state = Arc::new(AtomicUsize::new(0));
    let mut guard = GuardSlot::assemble(state.clone(), |s: Arc<AtomicUsize>| {
        s.fetch_add(1, Ordering::SeqCst);
    });

    let (context, original_action) = guard.disassemble();
    let mapped = GuardSlot::assemble(context, move |s: Arc<AtomicUsize>| {
        s.fetch_add(10, Ordering::SeqCst);
        original_action(s.clone());
        s.fetch_add(100, Ordering::SeqCst);
    });
    assert!(drop_slot(mapped).is_some());

    assert_eq!(state.load(Ordering::SeqCst), 111);
}

#[test]
fn dropped_guard_runs_action_once_on_edited_context() {
    let mut guard = GuardSlot::assemble(String::from("Hello"), |s: String| s + "!");
    guard.context_mut().push_str(", world");
    assert_eq!(guard.context(), "Hello, world");
    assert!(guard.is_armed());
    assert_eq!(drop_slot(guard), Some(String::from("Hello, world!")));
}

#[test]
fn slot_hands_parts_out_once() {
    let mut guard = GuardSlot::assemble(3u8, |x: u8| x + 1);
    let first = guard.take();
    assert!(!guard.is_armed());
    let second = guard.take();
    assert!(second.is_none());
    let parts = first.unwrap();
    assert_eq!((parts.action)(parts.context), 4);
}

#[test]
fn fn_hint_passes_value_through() {
    let (v, f) = __fn((5u32, |x: u32| x * 2));
    assert_eq!(f(v), 10);
}
