//! The persistence layer of a ledger node: typed, capability-based access to
//! an embedded key-value engine, the table of its partitions, and the
//! lifecycle that detects a store which was not closed.
//!
//! The layer decides and the host performs. Every operation is a request for
//! the engine (`engine`) and a reading of the engine's reply; nothing in
//! this crate touches a disk.
//!
//! - `access`: the capability interfaces, and the request and the reading of
//!   each operation, for every key/value shape at once.
//! - `backend`, `snapshot`: the lifecycle interface of a backend, and the
//!   capabilities that the snapshot subsystem asks for.
//! - `partition`, `config`: the table of partitions and the engine's tuning.
//! - `packable`, `integer`, `health`, `system`, `ledger`: the records and
//!   their encodings.
//! - `storage`: how a store is opened, checked and closed, step by step.
//! - `lifecycle`: whole starts and shutdowns, and what holds of them.

pub mod access;
pub mod backend;
pub mod config;
pub mod engine;
pub mod error;
pub mod health;
pub mod integer;
pub mod ledger;
pub mod lifecycle;
pub mod packable;
pub mod partition;
pub mod snapshot;
pub mod storage;
pub mod system;
