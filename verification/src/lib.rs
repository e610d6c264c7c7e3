//! A small embeddable task-execution engine: a typed registry of named
//! operations, queues of pending work, and the decision logic of a driver
//! loop that dispatches queued actions with bounded retry and cooperative
//! shutdown.
//!
//! The engine's decisions are verified here; the host program performs the
//! effects they call for (sleeping, invoking registered operations and
//! hooks) and reports each outcome back to the corresponding step machine.
#![allow(non_snake_case)]

pub mod action;
pub mod error;
pub mod execution;
pub mod life;
pub mod metadata;
pub mod plan;
pub mod production;
pub mod sequence;
pub mod signal;
pub mod steal;
pub mod table;
pub mod work;
