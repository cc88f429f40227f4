//! Correlation and lifecycle core of a connection to a poll-based execution
//! engine: request identities and their wire tags, the table of in-flight
//! requests, delivery of correlated results and fan-out of notifications.

pub mod bus;
pub mod calls;
pub mod channel;
pub mod connection;
pub mod error;
pub mod laws;
pub mod observer;
pub mod run_loop;
pub mod step;
pub mod table;
pub mod tag;
pub mod types;
