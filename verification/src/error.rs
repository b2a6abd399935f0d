//! The protocol-violation taxonomy.
//!
//! The host and the engine shims are co-generated from the same interface
//! description, so a mismatch observed at the boundary — a wrong value kind
//! on the stack, a wrong argument count, an event the task protocol does
//! not describe — indicates a defect in the bridge, not a recoverable
//! condition. Every such mismatch is detected and reported as a
//! [`ProtocolError`]; the embedding is expected to abort the instance with
//! a diagnostic rather than continue.

use vstd::prelude::*;

verus! {

/// A detected violation of the bridging protocol. Fatal to the instance.
#[derive(Clone, Copy, Debug, PartialEq, Eq, Structural)]
pub enum ProtocolError {
    /// A pop was issued against an empty value stack.
    StackUnderflow,
    /// The value on top of the stack does not have the kind the caller of
    /// a typed pop declared it would have.
    KindMismatch,
    /// A list iteration step was issued with no iteration in progress, or
    /// past the end of the sequence being traversed.
    IterationMismatch,
    /// An import was dispatched with an argument count different from the
    /// descriptor's declared parameter count.
    ArgCountMismatch,
    /// A dispatch named an import index the table does not hold.
    UnknownImport,
    /// A call named an export index the table does not hold.
    UnknownExport,
    /// Settlement callbacks were supplied for a synchronous import, or
    /// missing for an asynchronous one.
    CallbackArityMismatch,
    /// A call-context stack was deregistered from the root registry while
    /// not registered, or registered twice.
    RootRegistryMismatch,
    /// The host delivered an event whose kind this layer does not know.
    UnknownEventKind,
    /// The host delivered a subtask event whose phase this layer does not
    /// know.
    UnknownSubtaskPhase,
    /// The host delivered a starting-phase subtask event, which lower
    /// layers consume and this layer must never observe.
    StartingPhaseObserved,
    /// A subtask event named a handle with no pending entry — delivered
    /// twice, or never registered.
    UnknownSubtask,
    /// A pending entry was registered under a subtask handle already in
    /// use.
    DuplicateSubtask,
    /// The host round-tripped a task-state address that is stale or was
    /// never issued.
    StaleTaskHandle,
    /// No slot is left for parking another task state: the index space
    /// is exhausted.
    TaskArenaFull,
    /// A waitable-set handle too large to pack into the wait status code.
    WaitableSetOutOfRange,
    /// A second initialization of the once-only engine session.
    SessionAlreadyInitialized,
    /// Two interface or function names rewrite to the same script
    /// identifier: a configuration error in the world, surfaced at
    /// generation time.
    NameCollision,
}

} // verus!
