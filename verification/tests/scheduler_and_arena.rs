use componentize_js::arena::TaskArena;
use componentize_js::context::CallContext;
use componentize_js::error::ProtocolError;
use componentize_js::roots::RootRegistry;
use componentize_js::scheduler::{
    EVENT_NONE, EVENT_SUBTASK, EventOutcome, PendingImport, PollOutcome, SUBTASK_RETURNED,
    SUBTASK_STARTED, SUBTASK_STARTING, TaskState,
};
use componentize_js::value::Value;

fn pending(reg: &mut RootRegistry, subtask: u32) -> PendingImport {
    PendingImport {
        subtask,
        import_index: 0,
        context: CallContext::new(reg),
        buffer: 0,
        resolve: Value::Text(String::from("resolve")),
        reject: Value::Text(String::from("reject")),
    }
}

#[test]
fn poll_exits_at_once_with_nothing_pending() {
    let mut state = TaskState::new();
    match state.poll().unwrap() {
        PollOutcome::Exit { release_set } => assert_eq!(release_set, None),
        other => panic!("expected exit, got {other:?}"),
    }
}

#[test]
fn poll_requests_a_waitable_set_then_waits() {
    let mut reg = RootRegistry::new();
    let mut state = TaskState::new();
    state.add_pending(pending(&mut reg, 7)).unwrap();
    assert!(matches!(state.poll().unwrap(), PollOutcome::NeedWaitableSet));
    state.provide_waitable_set(3);
    match state.poll().unwrap() {
        PollOutcome::Wait { set, status } => {
            assert_eq!(set, 3);
            assert_eq!(status, 2 | (3 << 4));
        },
        other => panic!("expected wait, got {other:?}"),
    }
    assert_eq!(state.subtask_handles(), vec![7]);
}

#[test]
fn oversized_waitable_set_is_rejected() {
    let mut reg = RootRegistry::new();
    let mut state = TaskState::new();
    state.add_pending(pending(&mut reg, 1)).unwrap();
    state.provide_waitable_set(0x1000_0000);
    assert_eq!(
        state.poll().unwrap_err(),
        ProtocolError::WaitableSetOutOfRange
    );
}

#[test]
fn exit_releases_the_waitable_set() {
    let mut reg = RootRegistry::new();
    let mut state = TaskState::new();
    state.add_pending(pending(&mut reg, 9)).unwrap();
    state.provide_waitable_set(5);
    let entry = match state.on_event(EVENT_SUBTASK, 9, SUBTASK_RETURNED).unwrap() {
        EventOutcome::Returned { entry } => entry,
        other => panic!("expected returned, got {other:?}"),
    };
    entry.context.destroy(&mut reg).unwrap();
    match state.poll().unwrap() {
        PollOutcome::Exit { release_set } => assert_eq!(release_set, Some(5)),
        other => panic!("expected exit, got {other:?}"),
    }
}

#[test]
fn duplicate_subtask_handles_are_rejected() {
    let mut reg = RootRegistry::new();
    let mut state = TaskState::new();
    state.add_pending(pending(&mut reg, 4)).unwrap();
    let again = pending(&mut reg, 4);
    assert_eq!(
        state.add_pending(again),
        Err(ProtocolError::DuplicateSubtask)
    );
    assert_eq!(state.pending_count(), 1);
}

#[test]
fn none_and_started_events_are_acknowledged() {
    let mut reg = RootRegistry::new();
    let mut state = TaskState::new();
    state.add_pending(pending(&mut reg, 2)).unwrap();
    assert!(matches!(
        state.on_event(EVENT_NONE, 0, 0).unwrap(),
        EventOutcome::Acknowledged
    ));
    assert!(matches!(
        state.on_event(EVENT_SUBTASK, 2, SUBTASK_STARTED).unwrap(),
        EventOutcome::Acknowledged
    ));
    assert_eq!(state.pending_count(), 1);
}

#[test]
fn unknown_event_shapes_are_fatal() {
    let mut state = TaskState::new();
    assert!(matches!(
        state.on_event(9, 0, 0),
        Err(ProtocolError::UnknownEventKind)
    ));
    assert!(matches!(
        state.on_event(EVENT_SUBTASK, 0, SUBTASK_STARTING),
        Err(ProtocolError::StartingPhaseObserved)
    ));
    assert!(matches!(
        state.on_event(EVENT_SUBTASK, 0, 9),
        Err(ProtocolError::UnknownSubtaskPhase)
    ));
}

#[test]
fn second_returned_event_for_a_handle_is_detected() {
    let mut reg = RootRegistry::new();
    let mut state = TaskState::new();
    state.add_pending(pending(&mut reg, 7)).unwrap();
    let entry = match state.on_event(EVENT_SUBTASK, 7, SUBTASK_RETURNED).unwrap() {
        EventOutcome::Returned { entry } => entry,
        other => panic!("expected returned, got {other:?}"),
    };
    assert_eq!(entry.subtask, 7);
    assert_eq!(state.pending_count(), 0);
    assert!(matches!(
        state.on_event(EVENT_SUBTASK, 7, SUBTASK_RETURNED),
        Err(ProtocolError::UnknownSubtask)
    ));
    entry.context.destroy(&mut reg).unwrap();
}

#[test]
fn returned_events_settle_in_delivery_order() {
    let mut reg = RootRegistry::new();
    let mut state = TaskState::new();
    state.add_pending(pending(&mut reg, 1)).unwrap();
    state.add_pending(pending(&mut reg, 2)).unwrap();
    let first = match state.on_event(EVENT_SUBTASK, 2, SUBTASK_RETURNED).unwrap() {
        EventOutcome::Returned { entry } => entry,
        other => panic!("expected returned, got {other:?}"),
    };
    assert_eq!(first.subtask, 2);
    let second = match state.on_event(EVENT_SUBTASK, 1, SUBTASK_RETURNED).unwrap() {
        EventOutcome::Returned { entry } => entry,
        other => panic!("expected returned, got {other:?}"),
    };
    assert_eq!(second.subtask, 1);
    first.context.destroy(&mut reg).unwrap();
    second.context.destroy(&mut reg).unwrap();
}

#[test]
fn arena_round_trips_a_task_state() {
    let mut reg = RootRegistry::new();
    let mut arena = TaskArena::new();
    let mut state = TaskState::new();
    state.add_pending(pending(&mut reg, 3)).unwrap();
    let h = arena.insert(state).unwrap();
    let state = arena.take(h).unwrap();
    assert_eq!(state.pending_count(), 1);
}

#[test]
fn stale_and_foreign_arena_handles_are_rejected() {
    let mut arena = TaskArena::new();
    let h = arena.insert(TaskState::new()).unwrap();
    assert!(arena.take(h).is_ok());
    assert!(matches!(arena.take(h), Err(ProtocolError::StaleTaskHandle)));
    assert!(matches!(
        arena.take(0xdead_0000_0001),
        Err(ProtocolError::StaleTaskHandle)
    ));
}

#[test]
fn parked_contexts_stay_reachable_for_the_tracer() {
    let mut reg = RootRegistry::new();
    let mut arena = TaskArena::new();
    let mut state = TaskState::new();
    let mut entry = pending(&mut reg, 6);
    entry.context.push_u32(1);
    entry.context.push_string(String::from("rooted"));
    state.add_pending(entry).unwrap();
    let h = arena.insert(state).unwrap();
    let parked = arena.stored_at(0).unwrap();
    assert_eq!(parked.pending_count(), 1);
    let context = parked.pending_context(0);
    assert_eq!(context.markable_slots(), vec![1]);
    assert!(matches!(context.stack_value(1), Value::Text(t) if t == "rooted"));
    arena.take(h).unwrap();
}

#[test]
fn reused_slots_issue_fresh_handles() {
    let mut arena = TaskArena::new();
    let a = arena.insert(TaskState::new()).unwrap();
    arena.take(a).unwrap();
    let b = arena.insert(TaskState::new()).unwrap();
    assert_ne!(a, b);
    assert!(matches!(arena.take(a), Err(ProtocolError::StaleTaskHandle)));
    arena.take(b).unwrap();
}
