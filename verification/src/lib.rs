//! Keeps a local working copy aligned with one tracked branch of a remote
//! repository.
//!
//! The crate holds the decisions of a reconciliation cycle and proves them:
//! which request or tool invocation comes next, how each answer is read, and
//! which outcome a cycle ends with. Network and process I/O belong to the
//! caller, who performs each requested action and hands the answer back.

pub mod config;
pub mod engine;
pub mod error;
pub mod guarantees;
pub mod inspector;
pub mod json;
pub mod remote;
pub mod resolver;
pub mod scheduler;
pub mod simulation;
pub mod tool;
