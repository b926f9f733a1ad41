//! The storage that the snapshot subsystem asks for.

use vstd::prelude::*;
use crate::access::{Fetch, Insert, Truncate};
use crate::backend;
use crate::ledger::{
    Ed25519Address, LedgerIndex, MilestoneIndex, Output, OutputId, SnapshotInfo, SolidEntryPoint,
    Unspent,
};

verus! {

/// A backend that the snapshot subsystem can work on: one that has the
/// lifecycle operations and each capability that the subsystem uses. Every
/// backend with these capabilities is one, with nothing to declare.
pub trait StorageBackend:
    backend::StorageBackend
    + Fetch<(), SnapshotInfo>
    + Fetch<(), LedgerIndex>
    + Insert<SolidEntryPoint, MilestoneIndex>
    + Insert<(), LedgerIndex>
    + Insert<OutputId, Output>
    + Insert<Unspent, ()>
    + Insert<(Ed25519Address, OutputId), ()>
    + Insert<(), SnapshotInfo>
    + Truncate<SolidEntryPoint, MilestoneIndex>
{
}

impl<T> StorageBackend for T where
    T: backend::StorageBackend
        + Fetch<(), SnapshotInfo>
        + Fetch<(), LedgerIndex>
        + Insert<SolidEntryPoint, MilestoneIndex>
        + Insert<(), LedgerIndex>
        + Insert<OutputId, Output>
        + Insert<Unspent, ()>
        + Insert<(Ed25519Address, OutputId), ()>
        + Insert<(), SnapshotInfo>
        + Truncate<SolidEntryPoint, MilestoneIndex>,
{
}

} // verus!
