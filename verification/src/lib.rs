//! A periodic command-dispatch agent's verified core.
//!
//! On a fixed interval the agent sends a structured command request to a
//! configured remote endpoint until told to stop.  The heart of the design is
//! an interruptible scheduling loop: a timed wait that a shutdown signal can
//! wake early, plus a per-tick dispatch whose network latency must never
//! delay the next tick.
//!
//! This crate holds the decision logic of that design, verified:
//!
//! - [`signal`]: the stop flag shared between controller and worker, and what
//!   a wake from the interruptible wait observes of it;
//! - [`scheduler`]: the loop's state machine, one step per wake, with proofs
//!   that no tick is dispatched once a stop is observed;
//! - [`config`]: the immutable configuration that the surrounding command-line
//!   layer supplies once it has validated its inputs;
//! - [`payload`]: the wire format of the per-tick request, a JSON object with
//!   three string fields, framed byte by byte;
//! - [`dispatch`]: the classification of one send attempt's result into the
//!   outcome that is logged;
//! - [`controller`]: the controller's shutdown decisions.
//!
//! The surrounding binary supplies what cannot be verified: argument parsing,
//! the worker thread, the condition-variable wait itself, and the HTTP post.
//! It hands this crate plain values and obeys the contracts stated here.

pub mod config;
pub mod controller;
pub mod dispatch;
pub mod payload;
pub mod scheduler;
pub mod signal;
