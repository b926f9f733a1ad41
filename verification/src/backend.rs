//! The lifecycle interface of a storage backend.

use vstd::prelude::*;
use crate::health::StorageHealth;

verus! {

/// What the hosting node asks of a storage backend. A backend is the one
/// owner of its engine handle from `start` to `shutdown`.
pub trait StorageBackend: Sized {
    /// The configuration that a backend is started with.
    type Config;

    /// The error of every operation of the backend.
    type Error;

    /// Opens the store, or creates it where the configuration allows that,
    /// checks its version and its health flag, and marks it as open.
    fn start(config: Self::Config) -> Result<Self, Self::Error>;

    /// Marks the store as cleanly closed, writes everything to disk and
    /// gives up the engine handle. The backend is consumed: nothing can be
    /// asked of it afterwards.
    fn shutdown(self) -> Result<(), Self::Error>;

    /// The size on disk of the engine's live data files; `None` where the
    /// engine cannot tell.
    fn size(&self) -> Result<Option<usize>, Self::Error>;

    /// The stored health flag; `None` where none was stored yet.
    fn get_health(&self) -> Result<Option<StorageHealth>, Self::Error>;

    /// Stores a health flag.
    fn set_health(&self, health: StorageHealth) -> Result<(), Self::Error>;
}

} // verus!
