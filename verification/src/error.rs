//! The errors of the storage layer.

use vstd::prelude::*;
use crate::health::StorageHealth;

verus! {

/// A failure that the engine reported, carried as the engine worded it.
#[derive(Debug, PartialEq, Eq)]
pub struct EngineError {
    pub message: String,
}

/// Stored bytes that are the encoding of no value of the expected type.
#[derive(Clone, Copy, Debug, PartialEq, Eq)]
pub struct DecodeError;

/// Why an operation of the storage layer failed.
#[derive(Debug, PartialEq, Eq)]
pub enum Error {
    /// The engine failed; its error is handed on unchanged.
    Engine(EngineError),
    /// The stored version, then the version this layer writes and expects.
    VersionMismatch(u64, u64),
    /// The stored health flag says that the last run did not close the store.
    UnhealthyStorage(StorageHealth),
    /// Under the given system key lies something other than a record with
    /// the tag that belongs there.
    CorruptSystemRecord(u8),
    /// Stored bytes do not decode to the expected type.
    Decode,
}

} // verus!
