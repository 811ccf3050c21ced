//! Execution core of a deterministic bytecode virtual machine.
//!
//! The crate covers two subsystems of such a machine.  The execution
//! handlers turn a call or contract-creation request into an activation
//! frame, settle gas and refunds when a frame or the whole transaction
//! finishes, and fold frame outcomes back into the caller.  The
//! instrumentation layer wraps the per-opcode dispatch table and the
//! frame-lifecycle handlers so that an observer can watch or override
//! every execution step without changing the base behaviour.
//!
//! The opcode interpreter loop itself, the persistent account store and
//! transaction drivers are collaborators outside this crate; the types
//! here model exactly the state those collaborators hand across the
//! boundary (gas counters, status codes, journal positions, byte
//! buffers), so that every rule the core enforces is stated and proved.

pub mod primitives;
pub mod gas;
pub mod interpreter;
pub mod journal;
pub mod frame;
pub mod context;
pub mod execution;
pub mod table;
pub mod inspector;
pub mod handler;
pub mod laws;
