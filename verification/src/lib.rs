//! Coordination core of a continuous-integration build queue.
//!
//! Producers turn push events into pending build requests, workers claim
//! requests one at a time and record the outcome of the build. The store that
//! holds the backlog is the only thing producers and workers share.

pub mod builder;
pub mod builds;
pub mod channel;
pub mod claim;
pub mod database;
pub mod history;
pub mod memory_db;
pub mod notification_listener;
pub mod worker;
