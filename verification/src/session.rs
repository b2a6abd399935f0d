//! The engine session and the export call entry.
//!
//! The embedded engine owns one runtime and one global realm for the
//! component's whole life. The session records the two once-only
//! transitions — constructing the runtime on first use (the engine does
//! not survive a second construction) and evaluating the initialization
//! script exactly once — and decides, for each export call, which
//! script-side function the embedding must look up and invoke.

use vstd::prelude::*;

use crate::context::CallContext;
use crate::error::ProtocolError;
use crate::shim::sanitized;
use crate::table::DispatchTable;
use crate::value::Value;

verus! {

/// The once-only lifecycle of the embedded engine.
#[derive(Debug)]
pub struct EngineSession {
    started: bool,
    initialized: bool,
}

/// The relation [`EngineSession::ensure_started`] establishes:
/// construction is requested exactly on the first call, and the session
/// is started from then on.
pub open spec fn start_ensured(pre: EngineSession, post: EngineSession, create: bool) -> bool {
    &&& create == !pre.is_started()
    &&& post.is_started()
    &&& post.is_initialized() == pre.is_initialized()
}

impl EngineSession {
    /// Whether the runtime and global realm have been constructed.
    pub closed spec fn is_started(&self) -> bool {
        self.started
    }

    /// Whether the initialization script has been evaluated.
    pub closed spec fn is_initialized(&self) -> bool {
        self.initialized
    }

    /// A session with nothing constructed and nothing evaluated.
    pub fn new() -> (s: EngineSession)
        ensures
            !s.is_started(),
            !s.is_initialized(),
    {
        EngineSession { started: false, initialized: false }
    }

    /// Enter the realm for a call: returns whether the embedding must
    /// construct the runtime and global realm first, which it is told to
    /// do on the first call and never again — the engine does not
    /// support reinitialization, so a second construction must never be
    /// requested.
    pub fn ensure_started(&mut self) -> (create: bool)
        ensures
            start_ensured(*old(self), *final(self), create),
    {
        let create = !self.started;
        self.started = true;
        create
    }

    /// Record the one evaluation of the initialization script. A second
    /// initialization of the same session is a protocol violation.
    pub fn begin_init(&mut self) -> (r: Result<(), ProtocolError>)
        ensures
            final(self).is_started() == old(self).is_started(),
            final(self).is_initialized(),
            match r {
                Ok(()) => !old(self).is_initialized(),
                Err(e) => {
                    &&& e == ProtocolError::SessionAlreadyInitialized
                    &&& old(self).is_initialized()
                },
            },
    {
        if self.initialized {
            Err(ProtocolError::SessionAlreadyInitialized)
        } else {
            self.initialized = true;
            Ok(())
        }
    }
}

/// Runtime construction happens at most once: after any call told the
/// embedding to construct, no later call does.
pub proof fn lemma_runtime_constructed_once(
    s0: EngineSession,
    s1: EngineSession,
    s2: EngineSession,
    c1: bool,
    c2: bool,
)
    requires
        start_ensured(s0, s1, c1),
        start_ensured(s1, s2, c2),
    ensures
        !c2,
{
}

/// The script-side function an export call must be routed to: the
/// global object to start from, the namespace to step into if the
/// export has an owning interface, and the function's translated name.
#[derive(Debug)]
pub struct ExportTarget {
    /// The global property holding the export objects: the async-capable
    /// wrapper object for the asynchronous convention, the user's plain
    /// `exports` object otherwise.
    pub root: Vec<char>,
    /// The translated interface namespace to step into, if any.
    pub namespace: Option<Vec<char>>,
    /// The export's translated function name.
    pub name: Vec<char>,
    /// Whether the export declares a result value.
    pub has_result: bool,
}

/// Resolve which script-side function an export call invokes. An index
/// outside the table is a protocol violation.
pub fn export_target(table: &DispatchTable, index: usize, is_async: bool) -> (r: Result<
    ExportTarget,
    ProtocolError,
>)
    ensures
        match r {
            Ok(t) => {
                &&& index < table.exports().len()
                &&& t.root@ == if is_async {
                    "componentize_js_async_exports"@
                } else {
                    "exports"@
                }
                &&& match table.exports()[index as int].interface {
                    Some(i) => t.namespace matches Some(ns) && ns@ == sanitized(i@),
                    None => t.namespace is None,
                }
                &&& t.name@ == sanitized(table.exports()[index as int].name@)
                &&& t.has_result == table.exports()[index as int].has_result
            },
            Err(e) => {
                &&& e == ProtocolError::UnknownExport
                &&& index >= table.exports().len()
            },
        },
{
    let desc = match table.export_func(index) {
        Ok(d) => d,
        Err(e) => {
            return Err(e);
        },
    };
    let root = if is_async {
        crate::shim::text_of("componentize_js_async_exports")
    } else {
        crate::shim::text_of("exports")
    };
    let namespace = match &desc.interface {
        Some(i) => Some(crate::shim::sanitize_name(i.as_str())),
        None => None,
    };
    let name = crate::shim::sanitize_name(desc.name.as_str());
    Ok(ExportTarget { root, namespace, name, has_result: desc.has_result })
}

/// Hand a synchronous export's result back to the host: the value the
/// script function returned is pushed onto the call's context exactly
/// when the export declares a result, and the context is otherwise
/// untouched.
pub fn finish_sync_export(context: &mut CallContext, has_result: bool, result: Value)
    ensures
        crate::context::aux_preserved(*old(context), *final(context)),
        final(context)@ == if has_result {
            old(context)@.push(result)
        } else {
            old(context)@
        },
{
    if has_result {
        context.push_value(result);
    }
}

/// Assemble what `init` reports when the script fails: the script's
/// error text augmented with whatever the program wrote to standard
/// output and standard error while it ran.
pub fn init_failure_message(error_text: &Vec<char>, out_text: &Vec<char>, err_text: &Vec<char>) -> (
    r: Vec<char>)
    ensures
        r@ == error_text@ + out_text@ + err_text@,
{
    let mut r: Vec<char> = Vec::new();
    crate::shim::append_chars(&mut r, error_text);
    crate::shim::append_chars(&mut r, out_text);
    crate::shim::append_chars(&mut r, err_text);
    r
}

} // verus!
