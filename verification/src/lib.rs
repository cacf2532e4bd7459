//! Control-flow scheduling and input normalization for a native windowing run loop.
//!
//! Native callbacks are turned into one ordered stream of canonical events, and the
//! application's wake policy decides when the run loop sleeps and when it dispatches.

pub mod channel;
pub mod control_flow;
pub mod dispatcher;
pub mod event;
pub mod event_loop;
pub mod geometry;
pub mod ime;
pub mod key_input;
pub mod keyboard;
pub mod modifier_replay;
pub mod pointer;
pub mod queue;
pub mod run_loop;
pub mod view;
