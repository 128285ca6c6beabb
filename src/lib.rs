//! Entry service: a small create / list / delete store of named, time-stamped entries.
//!
//! The library holds the service's logic: the timestamp type and its wire text, the mapping of
//! stored rows to entries, and the decisions each request makes around one storage statement.
//! Running the statements, the lock round the connection and the HTTP transport are left to the
//! program that embeds it.

pub mod entry;
pub mod error;
pub mod laws;
pub mod service;
mod text;
pub mod timestamp;

pub use entry::{Entry, StoredRow};
pub use error::ServiceError;
pub use service::{Reply, Request, Statement, Step, StoreOutcome};
pub use timestamp::Timestamp;
