//! Call-bridging runtime for a script-backed WebAssembly component.
//!
//! The library models the layer that marshals values between the component
//! model's typed, stack-oriented calling convention and an embedded
//! scripting engine's native value representation, and that reconciles the
//! engine's single-threaded event loop with the component model's
//! asynchronous task protocol.
//!
//! The pieces, leaves first: [`value`] is the engine-facing value
//! representation crossing the boundary; [`error`] the protocol-violation
//! taxonomy; [`roots`] the GC root registry of live call-context stacks;
//! [`context`] the per-invocation marshalling state with its typed
//! push/pop operations; [`table`] the import/export dispatch table built
//! once from the interface description; [`shim`] the generator for the
//! script source routing script-visible calls through the native
//! dispatch entry point; [`dispatch`] that entry point's decision logic;
//! [`scheduler`] the per-async-export task state machine; [`arena`]
//! generation-checked storage for suspended task states; and [`session`]
//! the once-only engine lifecycle and the export call entry.
//!
//! The engine itself (script evaluation, property access, job-queue
//! draining, collection) and the host (import implementations, waitable
//! sets, subtask handles) are outside collaborators: each function here
//! that needs them returns a description of the work to perform and takes
//! the outcome back as a plain value, so that every decision made between
//! those boundaries is verified.

pub mod arena;
pub mod context;
pub mod dispatch;
pub mod error;
pub mod roots;
pub mod scheduler;
pub mod session;
pub mod shim;
pub mod table;
pub mod value;
