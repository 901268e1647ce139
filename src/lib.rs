//! Task-lifecycle front end for a remote execution backend: request building,
//! access rules, rendering of task snapshots and command dispatch.

pub mod chunking;
pub mod client;
pub mod config;
pub mod dispatch;
pub mod invocation;
pub mod model;
pub mod render;
pub mod replies;
pub mod text;
