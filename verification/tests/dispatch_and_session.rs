use componentize_js::context::CallContext;
use componentize_js::dispatch::{
    AsyncDispatchResult, AsyncImportOutcome, ImportCall, complete_async_import,
    finish_returned, finish_sync_import, prepare_import_call, settle_value,
};
use componentize_js::scheduler::PendingImport;
use componentize_js::error::ProtocolError;
use componentize_js::roots::RootRegistry;
use componentize_js::scheduler::TaskState;
use componentize_js::session::{EngineSession, export_target, finish_sync_export, init_failure_message};
use componentize_js::table::{DispatchTable, FuncDesc};
use componentize_js::value::Value;

fn desc(
    interface: Option<&str>,
    name: &str,
    param_count: u32,
    is_async: bool,
    has_result: bool,
) -> FuncDesc {
    FuncDesc {
        interface: interface.map(String::from),
        name: String::from(name),
        param_count,
        is_async,
        has_result,
    }
}

fn markers() -> (Value, Value) {
    (
        Value::Text(String::from("resolve")),
        Value::Text(String::from("reject")),
    )
}

#[test]
fn unknown_import_index_is_rejected() {
    let mut reg = RootRegistry::new();
    let table = DispatchTable::new(vec![desc(None, "f", 0, false, false)], vec![]);
    match prepare_import_call(&table, 1, vec![], None, &mut reg) {
        Err(e) => assert_eq!(e, ProtocolError::UnknownImport),
        Ok(_) => panic!("expected an error"),
    }
}

#[test]
fn argument_count_mismatch_is_rejected() {
    let mut reg = RootRegistry::new();
    let table = DispatchTable::new(vec![desc(None, "f", 2, false, false)], vec![]);
    match prepare_import_call(&table, 0, vec![Value::U32(1)], None, &mut reg) {
        Err(e) => assert_eq!(e, ProtocolError::ArgCountMismatch),
        Ok(_) => panic!("expected an error"),
    }
    assert_eq!(reg.len(), 0);
}

#[test]
fn callback_arity_must_match_the_convention() {
    let mut reg = RootRegistry::new();
    let table = DispatchTable::new(
        vec![desc(None, "s", 0, false, false), desc(None, "a", 0, true, false)],
        vec![],
    );
    match prepare_import_call(&table, 0, vec![], Some(markers()), &mut reg) {
        Err(e) => assert_eq!(e, ProtocolError::CallbackArityMismatch),
        Ok(_) => panic!("expected an error"),
    }
    match prepare_import_call(&table, 1, vec![], None, &mut reg) {
        Err(e) => assert_eq!(e, ProtocolError::CallbackArityMismatch),
        Ok(_) => panic!("expected an error"),
    }
}

#[test]
fn sync_import_runs_through_a_fresh_context() {
    let mut reg = RootRegistry::new();
    let table = DispatchTable::new(vec![desc(None, "add-two", 1, false, true)], vec![]);
    let call = prepare_import_call(&table, 0, vec![Value::U32(40)], None, &mut reg).unwrap();
    let mut ictx = match call {
        ImportCall::Sync { context } => context,
        other => panic!("expected a sync call, got {other:?}"),
    };
    assert_eq!(reg.len(), 1);
    let v = ictx.pop_u32().unwrap();
    ictx.push_u32(v + 2);
    let (result, frees) = finish_sync_import(ictx, true, &mut reg).unwrap();
    assert!(frees.is_empty());
    assert!(matches!(result, Some(Value::U32(42))));
    assert_eq!(reg.len(), 0);
}

#[test]
fn async_import_completing_synchronously_resolves_at_once() {
    let mut reg = RootRegistry::new();
    let mut state = TaskState::new();
    let table = DispatchTable::new(vec![desc(None, "quick", 1, true, true)], vec![]);
    let (resolve, reject) = markers();
    let call = prepare_import_call(
        &table,
        0,
        vec![Value::U32(5)],
        Some((resolve, reject)),
        &mut reg,
    )
    .unwrap();
    let (mut ictx, resolve, reject) = match call {
        ImportCall::Async { context, resolve, reject } => (context, resolve, reject),
        other => panic!("expected an async call, got {other:?}"),
    };
    let v = ictx.pop_u32().unwrap();
    ictx.push_u32(v + 1);
    let r = complete_async_import(
        &mut state,
        0,
        ictx,
        resolve,
        reject,
        AsyncImportOutcome::Completed,
        true,
        &mut reg,
    )
    .unwrap();
    let settlement = match r {
        AsyncDispatchResult::ResolveNow { settlement, frees } => {
            assert!(frees.is_empty());
            settlement
        },
        other => panic!("expected immediate settlement, got {other:?}"),
    };
    assert!(matches!(settlement.callback, Value::Text(ref t) if t == "resolve"));
    assert!(matches!(settlement.argument, Value::U32(6)));
    assert_eq!(state.pending_count(), 0);
    assert_eq!(reg.len(), 0);
}

#[test]
fn async_import_left_pending_is_parked() {
    let mut reg = RootRegistry::new();
    let mut state = TaskState::new();
    let table = DispatchTable::new(vec![desc(None, "slow", 0, true, true)], vec![]);
    let (resolve, reject) = markers();
    let call = prepare_import_call(&table, 0, vec![], Some((resolve, reject)), &mut reg).unwrap();
    let (ictx, resolve, reject) = match call {
        ImportCall::Async { context, resolve, reject } => (context, resolve, reject),
        other => panic!("expected an async call, got {other:?}"),
    };
    let r = complete_async_import(
        &mut state,
        0,
        ictx,
        resolve,
        reject,
        AsyncImportOutcome::Pending { subtask: 11, buffer: 0x40 },
        true,
        &mut reg,
    )
    .unwrap();
    assert!(matches!(r, AsyncDispatchResult::Parked { subtask: 11 }));
    assert_eq!(state.pending_count(), 1);
    assert_eq!(state.subtask_handles(), vec![11]);
    assert_eq!(reg.len(), 1);
}

#[test]
fn sync_completion_resolves_even_an_error_result() {
    let mut reg = RootRegistry::new();
    let mut state = TaskState::new();
    let table = DispatchTable::new(vec![desc(None, "quick-err", 0, true, true)], vec![]);
    let (resolve, reject) = markers();
    let call = prepare_import_call(&table, 0, vec![], Some((resolve, reject)), &mut reg).unwrap();
    let (mut ictx, resolve, reject) = match call {
        ImportCall::Async { context, resolve, reject } => (context, resolve, reject),
        other => panic!("expected an async call, got {other:?}"),
    };
    // the host completed at once with an error-result value
    ictx.push_result(true, false).unwrap();
    let r = complete_async_import(
        &mut state,
        0,
        ictx,
        resolve,
        reject,
        AsyncImportOutcome::Completed,
        true,
        &mut reg,
    )
    .unwrap();
    let settlement = match r {
        AsyncDispatchResult::ResolveNow { settlement, .. } => settlement,
        other => panic!("expected immediate settlement, got {other:?}"),
    };
    // the resolve callback fires with the lifted value as it stands;
    // reject plays no part on the synchronously-completed path
    assert!(matches!(settlement.callback, Value::Text(ref t) if t == "resolve"));
    assert!(matches!(
        settlement.argument,
        Value::ResultVal { is_err: true, payload: None }
    ));
    assert_eq!(state.pending_count(), 0);
}

#[test]
fn settlement_routes_error_results_to_reject() {
    let (resolve, reject) = markers();
    let s = settle_value(
        resolve,
        reject,
        Value::ResultVal {
            is_err: true,
            payload: Some(Box::new(Value::U32(9))),
        },
    );
    assert!(matches!(s.callback, Value::Text(ref t) if t == "reject"));
    assert!(matches!(s.argument, Value::U32(9)));
    let (resolve, reject) = markers();
    let s = settle_value(
        resolve,
        reject,
        Value::ResultVal { is_err: false, payload: None },
    );
    assert!(matches!(s.callback, Value::Text(ref t) if t == "resolve"));
    assert!(matches!(s.argument, Value::Undefined));
}

#[test]
fn returned_settlement_failures_name_their_cause() {
    // a result owed but not lifted: the empty stack is detected
    let mut reg = RootRegistry::new();
    let (resolve, reject) = markers();
    let entry = PendingImport {
        subtask: 1,
        import_index: 0,
        context: CallContext::new(&mut reg),
        buffer: 0,
        resolve,
        reject,
    };
    match finish_returned(entry, true, &mut reg) {
        Err(e) => assert_eq!(e, ProtocolError::StackUnderflow),
        Ok(_) => panic!("expected an error"),
    }
    // a context live in another registry: the registry mismatch is detected
    let mut other = RootRegistry::new();
    let mut empty = RootRegistry::new();
    let (resolve, reject) = markers();
    let mut entry = PendingImport {
        subtask: 2,
        import_index: 0,
        context: CallContext::new(&mut other),
        buffer: 0,
        resolve,
        reject,
    };
    entry.context.push_u32(5);
    match finish_returned(entry, true, &mut empty) {
        Err(e) => assert_eq!(e, ProtocolError::RootRegistryMismatch),
        Ok(_) => panic!("expected an error"),
    }
}

#[test]
fn engine_session_starts_and_initializes_once() {
    let mut session = EngineSession::new();
    assert!(session.ensure_started());
    assert!(!session.ensure_started());
    assert_eq!(session.begin_init(), Ok(()));
    assert_eq!(
        session.begin_init(),
        Err(ProtocolError::SessionAlreadyInitialized)
    );
}

#[test]
fn export_target_resolves_the_property_path() {
    let table = DispatchTable::new(
        vec![],
        vec![
            desc(Some("t:w/i"), "run-it", 1, true, true),
            desc(None, "bare", 0, false, false),
        ],
    );
    let t = export_target(&table, 0, true).unwrap();
    assert_eq!(
        t.root.iter().collect::<String>(),
        "componentize_js_async_exports"
    );
    assert_eq!(
        t.namespace.as_ref().unwrap().iter().collect::<String>(),
        "t_w_i"
    );
    assert_eq!(t.name.iter().collect::<String>(), "run_it");
    assert!(t.has_result);
    let t = export_target(&table, 1, false).unwrap();
    assert_eq!(t.root.iter().collect::<String>(), "exports");
    assert!(t.namespace.is_none());
    assert_eq!(t.name.iter().collect::<String>(), "bare");
    assert!(!t.has_result);
    match export_target(&table, 2, false) {
        Err(e) => assert_eq!(e, ProtocolError::UnknownExport),
        Ok(_) => panic!("expected an error"),
    }
}

#[test]
fn sync_export_pushes_a_result_only_when_declared() {
    let mut reg = RootRegistry::new();
    let mut ctx = CallContext::new(&mut reg);
    finish_sync_export(&mut ctx, false, Value::U32(1));
    assert_eq!(ctx.stack_len(), 0);
    finish_sync_export(&mut ctx, true, Value::U32(1));
    assert_eq!(ctx.stack_len(), 1);
    assert_eq!(ctx.pop_u32(), Ok(1));
    ctx.destroy(&mut reg).unwrap();
}

#[test]
fn init_failure_text_carries_the_buffered_output() {
    let e: Vec<char> = "boom: ".chars().collect();
    let o: Vec<char> = "out ".chars().collect();
    let x: Vec<char> = "err".chars().collect();
    let msg: String = init_failure_message(&e, &o, &x).into_iter().collect();
    assert_eq!(msg, "boom: out err");
}
