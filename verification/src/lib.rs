//! Deterministic replay engine for a process-tracing debugger.
//!
//! The library covers the architecture-independent register model, the
//! per-task and thread-group state that replay maintains, and the syscall
//! replay state machine, including the process-creation path.  All decisions
//! are made over plain values; the driver that issues the actual tracing
//! primitives feeds observed stops back in as events.

pub mod address_space;
pub mod errors;
pub mod flags;
pub mod kernel_abi;
pub mod registers;
pub mod replay_syscall;
pub mod replay_task;
pub mod session;
pub mod thread_group;
pub mod trace;
pub mod trace_info;
pub mod wait_status;
