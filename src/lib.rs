//! A distributed build system's core: the wire protocol, the shared task queue
//! and result table, and the decisions of every session kind.
pub mod cli;
pub mod config;
pub mod controller;
pub mod payload;
pub mod protocol;
pub mod queue;
pub mod results;
pub mod session;
pub mod submission;
pub mod text;
pub mod worker;
