//! Process supervision and cortex scheduling for conversational agents.
//!
//! The library keeps the decisions of the agent runtime: which work may be
//! started, when buffered messages are dispatched, when the circuit breaker
//! opens, which compaction tier a context is in, and how internal process
//! events are shaped for outside consumers.

pub mod clock;
pub mod process;
pub mod text;
pub mod events;
pub mod breaker;
pub mod config;
pub mod coalesce;
pub mod status;
pub mod supervisor;
pub mod bus;
pub mod requests;
pub mod assets;
pub mod cortex;
