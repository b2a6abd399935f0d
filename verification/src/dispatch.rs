//! The native dispatch entry point's decision logic.
//!
//! Script-visible import calls route through one native entry point with
//! a numeric index into the dispatch table. This module holds every
//! decision that entry point makes: validating the index and the
//! argument count against the descriptor, capturing the arguments in a
//! fresh [`CallContext`], telling the embedding whether to issue the
//! host call synchronously or asynchronously, registering a pending
//! entry when an asynchronous call does not complete at once, and
//! settling the script-side callbacks when a result is in hand. The host
//! call itself is the embedding's work; every outcome it can report is
//! taken back here as a plain value.

use vstd::prelude::*;

use crate::context::{CallContext, DeferredFree};
use crate::error::ProtocolError;
use crate::roots::{RootRegistry, registered, deregistered};
use crate::scheduler::{PendingImport, TaskState};
use crate::table::DispatchTable;
use crate::value::Value;

verus! {

/// A validated import call, ready for the embedding to issue: the
/// arguments stand in the captured context in pushed order.
#[derive(Debug)]
pub enum ImportCall {
    /// Call the host import synchronously and then finish through
    /// [`finish_sync_import`].
    Sync {
        /// The captured marshalling state holding the arguments.
        context: CallContext,
    },
    /// Issue the host import asynchronously and report the outcome to
    /// [`complete_async_import`].
    Async {
        /// The captured marshalling state holding the arguments.
        context: CallContext,
        /// The script-side function settling the promise on success.
        resolve: Value,
        /// The script-side function settling the promise on failure.
        reject: Value,
    },
}

/// What the host reported for an asynchronously issued import call.
#[derive(Debug)]
pub enum AsyncImportOutcome {
    /// The call completed before returning; its result, if any, stands
    /// in the captured context.
    Completed,
    /// The call is in flight under a host-assigned subtask handle; its
    /// result will arrive in the buffer when the subtask returns.
    Pending {
        /// The host-assigned subtask handle.
        subtask: u32,
        /// The address of the buffer the result will be lifted from.
        buffer: usize,
    },
}

/// A settled script callback invocation for the embedding to perform.
#[derive(Debug)]
pub struct Settlement {
    /// The script function to invoke.
    pub callback: Value,
    /// Its single argument.
    pub argument: Value,
}

/// What became of an asynchronous import call once the host reported
/// its outcome.
#[derive(Debug)]
pub enum AsyncDispatchResult {
    /// The call completed synchronously: settle the callback now; no
    /// pending entry was created.
    ResolveNow {
        /// The callback invocation to perform.
        settlement: Settlement,
        /// The captured context's deferred deallocations, due now.
        frees: Vec<DeferredFree>,
    },
    /// The call was parked as a pending entry under its subtask handle,
    /// to be settled by the returned event.
    Parked {
        /// The host-assigned subtask handle the entry is keyed by.
        subtask: u32,
    },
}

/// Which callback a returned subtask's lifted value drives, and with
/// what argument: an error result rejects with the error payload, an ok
/// result resolves with the ok payload, and any other value resolves
/// with the value itself. This routing belongs to the returned-event
/// path alone; an import that completes synchronously resolves
/// unconditionally with the lifted value as it stands.
pub open spec fn spec_settlement(resolve: Value, reject: Value, v: Value) -> Settlement {
    match v {
        Value::ResultVal { is_err, payload } => Settlement {
            callback: if is_err {
                reject
            } else {
                resolve
            },
            argument: match payload {
                Some(p) => *p,
                None => Value::Undefined,
            },
        },
        _ => Settlement { callback: resolve, argument: v },
    }
}

/// Validate an import call against the dispatch table and capture its
/// arguments: the index must name a descriptor, the argument count must
/// equal the declared parameter count, and settlement callbacks must be
/// supplied exactly for the asynchronous calling convention. On success
/// a fresh context registered in `reg` holds the arguments in order.
pub fn prepare_import_call(
    table: &DispatchTable,
    index: usize,
    args: Vec<Value>,
    callbacks: Option<(Value, Value)>,
    reg: &mut RootRegistry,
) -> (r: Result<ImportCall, ProtocolError>)
    requires
        old(reg).well_formed(),
        old(reg).issued() < u64::MAX,
    ensures
        final(reg).well_formed(),
        match r {
            Ok(call) => {
                &&& final(reg).issued() == old(reg).issued() + 1
                &&& index < table.imports().len()
                &&& args@.len() == table.imports()[index as int].param_count
                &&& registered(*old(reg), *final(reg), prepared_context(call).spec_id())
                &&& prepared_context(call)@ == args@
                &&& match call {
                    ImportCall::Sync { context } => {
                        &&& !table.imports()[index as int].is_async
                        &&& callbacks is None
                    },
                    ImportCall::Async { context, resolve, reject } => {
                        &&& table.imports()[index as int].is_async
                        &&& callbacks == Some((resolve, reject))
                    },
                }
            },
            Err(e) => {
                &&& final(reg)@ == old(reg)@
                &&& final(reg).issued() == old(reg).issued()
                &&& if index >= table.imports().len() {
                    e == ProtocolError::UnknownImport
                } else if args@.len() != table.imports()[index as int].param_count {
                    e == ProtocolError::ArgCountMismatch
                } else if table.imports()[index as int].is_async != (callbacks is Some) {
                    e == ProtocolError::CallbackArityMismatch
                } else {
                    false
                }
            },
        },
{
    let desc = match table.import_func(index) {
        Ok(d) => d,
        Err(e) => {
            return Err(e);
        },
    };
    if args.len() != desc.param_count as usize {
        return Err(ProtocolError::ArgCountMismatch);
    }
    let is_async = desc.is_async;
    match callbacks {
        Some((resolve, reject)) => {
            if !is_async {
                return Err(ProtocolError::CallbackArityMismatch);
            }
            let context = capture_arguments(args, reg);
            Ok(ImportCall::Async { context, resolve, reject })
        },
        None => {
            if is_async {
                return Err(ProtocolError::CallbackArityMismatch);
            }
            let context = capture_arguments(args, reg);
            Ok(ImportCall::Sync { context })
        },
    }
}

/// The captured context of a validated import call.
pub open spec fn prepared_context(call: ImportCall) -> CallContext {
    match call {
        ImportCall::Sync { context } => context,
        ImportCall::Async { context, .. } => context,
    }
}

/// Move the arguments into a freshly registered context, in order.
fn capture_arguments(args: Vec<Value>, reg: &mut RootRegistry) -> (c: CallContext)
    requires
        old(reg).well_formed(),
        old(reg).issued() < u64::MAX,
    ensures
        final(reg).well_formed(),
        final(reg).issued() == old(reg).issued() + 1,
        registered(*old(reg), *final(reg), c.spec_id()),
        c@ == args@,
        c.iter_frames().len() == 0,
        c.deferred_frees().len() == 0,
{
    let ghost all = args@;
    let mut context = CallContext::new(reg);
    let ghost cid = context.spec_id();
    let mut rest = args;
    let ghost mut i: int = 0;
    proof {
        assert(context@ =~= all.take(i));
        assert(rest@ =~= all.skip(i));
    }
    while rest.len() > 0
        invariant
            0 <= i,
            i + rest@.len() == all.len(),
            context.spec_id() == cid,
            context@ == all.take(i),
            rest@ == all.skip(i),
            context.iter_frames().len() == 0,
            context.deferred_frees().len() == 0,
        decreases rest@.len(),
    {
        let v = rest.remove(0);
        context.push_value(v);
        proof {
            i = i + 1;
            assert(context@ =~= all.take(i));
            assert(rest@ =~= all.skip(i));
        }
    }
    proof {
        assert(context@ =~= all);
    }
    context
}

/// Finish a synchronous import call once the embedding has performed the
/// host call, which pushed the result (if the import declares one) onto
/// the context: take the result off the stack, destroy the context, and
/// hand back the result value and the deferred deallocations now due.
pub fn finish_sync_import(
    context: CallContext,
    has_result: bool,
    reg: &mut RootRegistry,
) -> (r: Result<(Option<Value>, Vec<DeferredFree>), ProtocolError>)
    requires
        old(reg).well_formed(),
    ensures
        final(reg).well_formed(),
        final(reg).issued() == old(reg).issued(),
        match r {
            Ok((v, frees)) => {
                &&& if has_result {
                    &&& context@.len() > 0
                    &&& v == Some(context@.last())
                } else {
                    v is None
                }
                &&& deregistered(*old(reg), *final(reg), context.spec_id())
                &&& frees@ == context.deferred_frees()
            },
            Err(e) => {
                &&& final(reg)@ == old(reg)@
                &&& if has_result && context@.len() == 0 {
                    e == ProtocolError::StackUnderflow
                } else {
                    &&& e == ProtocolError::RootRegistryMismatch
                    &&& !old(reg)@.contains(context.spec_id())
                }
            },
        },
{
    let mut context = context;
    let result = if has_result {
        match context.pop_value() {
            Ok(v) => Some(v),
            Err(e) => {
                return Err(e);
            },
        }
    } else {
        None
    };
    match context.destroy(reg) {
        Ok(frees) => Ok((result, frees)),
        Err(e) => Err(e),
    }
}

/// Take the host's report on an asynchronously issued import call. A
/// synchronously completed call is settled at once: the resolve callback
/// is handed back with the lifted value (undefined when the import
/// declares no result) and no pending entry is created — reject plays no
/// part on this path. A call still in flight is parked in the task state
/// under its subtask handle.
pub fn complete_async_import(
    state: &mut TaskState,
    import_index: u32,
    context: CallContext,
    resolve: Value,
    reject: Value,
    outcome: AsyncImportOutcome,
    has_result: bool,
    reg: &mut RootRegistry,
) -> (r: Result<AsyncDispatchResult, ProtocolError>)
    requires
        old(state).well_formed(),
        old(reg).well_formed(),
    ensures
        final(state).well_formed(),
        final(reg).well_formed(),
        final(reg).issued() == old(reg).issued(),
        async_import_done(
            *old(state),
            *final(state),
            import_index,
            context,
            resolve,
            reject,
            outcome,
            has_result,
            r,
        ),
        match r {
            Ok(d) => match d {
                AsyncDispatchResult::ResolveNow { settlement, frees } => {
                    &&& deregistered(*old(reg), *final(reg), context.spec_id())
                    &&& frees@ == context.deferred_frees()
                },
                AsyncDispatchResult::Parked { .. } => final(reg)@ == old(reg)@,
            },
            Err(e) => {
                &&& final(reg)@ == old(reg)@
                &&& e == ProtocolError::RootRegistryMismatch ==> !old(reg)@.contains(
                    context.spec_id(),
                )
            },
        },
{
    match outcome {
        AsyncImportOutcome::Completed => {
            let mut context = context;
            let v = if has_result {
                match context.pop_value() {
                    Ok(v) => v,
                    Err(e) => {
                        return Err(e);
                    },
                }
            } else {
                Value::Undefined
            };
            let frees = match context.destroy(reg) {
                Ok(f) => f,
                Err(e) => {
                    return Err(e);
                },
            };
            let settlement = Settlement { callback: resolve, argument: v };
            Ok(AsyncDispatchResult::ResolveNow { settlement, frees })
        },
        AsyncImportOutcome::Pending { subtask, buffer } => {
            let entry = PendingImport { subtask, import_index, context, buffer, resolve, reject };
            match state.add_pending(entry) {
                Ok(()) => Ok(AsyncDispatchResult::Parked { subtask }),
                Err(e) => Err(e),
            }
        },
    }
}

/// The relation [`complete_async_import`] establishes on the task state
/// and its outcome. In particular: a synchronously completed call
/// drives the resolve callback — never reject — with the lifted value
/// as it stands, before dispatch returns, and creates no pending entry;
/// a call still in flight adds exactly its own entry.
pub open spec fn async_import_done(
    pre: TaskState,
    post: TaskState,
    import_index: u32,
    context: CallContext,
    resolve: Value,
    reject: Value,
    outcome: AsyncImportOutcome,
    has_result: bool,
    r: Result<AsyncDispatchResult, ProtocolError>,
) -> bool {
    match r {
        Ok(d) => match d {
            AsyncDispatchResult::ResolveNow { settlement, frees } => {
                &&& outcome is Completed
                &&& post.pending() == pre.pending()
                &&& post.waitable() == pre.waitable()
                &&& settlement.callback == resolve
                &&& has_result ==> context@.len() > 0 && settlement.argument == context@.last()
                &&& !has_result ==> settlement.argument == Value::Undefined
            },
            AsyncDispatchResult::Parked { subtask } => {
                &&& (outcome matches AsyncImportOutcome::Pending { subtask: s, buffer } && s
                    == subtask && !pre.has_subtask(subtask) && post.pending() == pre.pending().push(
                    PendingImport { subtask, import_index, context, buffer, resolve, reject },
                ))
                &&& post.waitable() == pre.waitable()
            },
        },
        Err(e) => {
            &&& post.pending() == pre.pending()
            &&& post.waitable() == pre.waitable()
            &&& match outcome {
                AsyncImportOutcome::Completed => if has_result && context@.len() == 0 {
                    e == ProtocolError::StackUnderflow
                } else {
                    e == ProtocolError::RootRegistryMismatch
                },
                AsyncImportOutcome::Pending { subtask, .. } => {
                    &&& e == ProtocolError::DuplicateSubtask
                    &&& pre.has_subtask(subtask)
                },
            }
        },
    }
}

/// Finish a pending entry whose subtask returned, once the embedding has
/// lifted the import's result from the captured buffer into the captured
/// context: take the result off the stack (or undefined if the import
/// declares none), destroy the context, and hand back the callback
/// invocation — resolve with the lifted value, or reject on an error
/// result — together with the deferred deallocations now due.
pub fn finish_returned(entry: PendingImport, has_result: bool, reg: &mut RootRegistry) -> (r:
    Result<(Settlement, Vec<DeferredFree>), ProtocolError>)
    requires
        old(reg).well_formed(),
    ensures
        final(reg).well_formed(),
        final(reg).issued() == old(reg).issued(),
        match r {
            Ok((settlement, frees)) => {
                &&& if has_result {
                    &&& entry.context@.len() > 0
                    &&& settlement == spec_settlement(
                        entry.resolve,
                        entry.reject,
                        entry.context@.last(),
                    )
                } else {
                    settlement == spec_settlement(entry.resolve, entry.reject, Value::Undefined)
                }
                &&& deregistered(*old(reg), *final(reg), entry.context.spec_id())
                &&& frees@ == entry.context.deferred_frees()
            },
            Err(e) => {
                &&& final(reg)@ == old(reg)@
                &&& if has_result && entry.context@.len() == 0 {
                    e == ProtocolError::StackUnderflow
                } else {
                    &&& e == ProtocolError::RootRegistryMismatch
                    &&& !old(reg)@.contains(entry.context.spec_id())
                }
            },
        },
{
    let PendingImport { context, resolve, reject, .. } = entry;
    let mut context = context;
    let v = if has_result {
        match context.pop_value() {
            Ok(v) => v,
            Err(e) => {
                return Err(e);
            },
        }
    } else {
        Value::Undefined
    };
    let frees = match context.destroy(reg) {
        Ok(f) => f,
        Err(e) => {
            return Err(e);
        },
    };
    let settlement = settle_value(resolve, reject, v);
    Ok((settlement, frees))
}

/// Build the callback invocation for a settled value, routing by
/// [`spec_settlement`].
pub fn settle_value(resolve: Value, reject: Value, v: Value) -> (s: Settlement)
    ensures
        s == spec_settlement(resolve, reject, v),
{
    match v {
        Value::ResultVal { is_err, payload } => {
            let callback = if is_err {
                reject
            } else {
                resolve
            };
            let argument = match payload {
                Some(p) => *p,
                None => Value::Undefined,
            };
            Settlement { callback, argument }
        },
        other => Settlement { callback: resolve, argument: other },
    }
}

/// A synchronously completing asynchronous import never parks state: if
/// the host reports completion, the pending map afterwards is the
/// pending map before, and the settlement drives the stored resolve
/// callback — never reject — with the lifted value.
pub proof fn lemma_sync_completion_leaves_nothing_pending(
    pre: TaskState,
    post: TaskState,
    import_index: u32,
    context: CallContext,
    resolve: Value,
    reject: Value,
    has_result: bool,
    r: Result<AsyncDispatchResult, ProtocolError>,
)
    requires
        async_import_done(
            pre,
            post,
            import_index,
            context,
            resolve,
            reject,
            AsyncImportOutcome::Completed,
            has_result,
            r,
        ),
        r is Ok,
    ensures
        post.pending() == pre.pending(),
        r matches Ok(d) && (d matches AsyncDispatchResult::ResolveNow { settlement, .. }
            && settlement.callback == resolve),
{
}

} // verus!
