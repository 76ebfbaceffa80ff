//! Per-partition invocation state machine of a durable-execution runtime, and the
//! decisions of the storage manager that hosts its key-value engine.

pub mod ids;
pub mod journal;
pub mod effects;
pub mod state_machine;
pub mod lemmas;
pub mod storage;
pub mod invoker;
