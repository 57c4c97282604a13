//! Macro-task scheduling and timers for a single-threaded script engine
//! embedded in a multi-threaded host.
//!
//! Background work runs on a tokio runtime and reports back through opaque
//! envelopes; every decision about a timer record (fire, cancel, ignore a
//! stale notification) is taken here, on the engine thread, against a state
//! whose invariants are proved.

pub mod context;
pub mod extension;
pub mod helper;
pub mod host_data;
pub mod host_hooks;
pub mod runtime;
pub mod task;
pub mod task_abort;
pub mod timeout;

pub use context::JSContextError;
pub use extension::document::DocumentExt;
pub use extension::node::NodeExt;
pub use extension::time::TimeExt;
pub use extension::ArgError;
pub use helper::event_dispatch_js;
pub use host_data::HostData;
pub use host_hooks::{BlitzHostHandler, HostHandler};
pub use runtime::{
    event_loop_turn, handle_macro_task, BlitzMacroTask, LoopState, MacroTask, TaskOutcome,
};
pub use task::{TaskError, TaskId, TaskRegistry};
pub use task_abort::AbortRequested;
pub use timeout::{Timeout, TimeoutId, TimeoutsStorage};
