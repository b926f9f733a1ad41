//! The persisted health flag of a store.

use vstd::prelude::*;
use crate::error::DecodeError;
use crate::packable::Packable;

verus! {

/// Whether a store was closed in a controlled way.
#[derive(Clone, Copy, Debug, PartialEq, Eq, Structural)]
pub enum StorageHealth {
    /// The store was closed cleanly, or was never opened.
    Healthy,
    /// The store is open, or was left open by a run that did not close it.
    Idle,
}

impl StorageHealth {
    /// The byte that stands for this value on disk.
    pub open spec fn spec_to_byte(self) -> u8 {
        match self {
            StorageHealth::Healthy => 0,
            StorageHealth::Idle => 1,
        }
    }

    /// The value that a byte stands for, if it stands for one.
    pub open spec fn spec_from_byte(byte: u8) -> Option<StorageHealth> {
        if byte == 0 {
            Some(StorageHealth::Healthy)
        } else if byte == 1 {
            Some(StorageHealth::Idle)
        } else {
            None
        }
    }

    /// The byte that stands for this value on disk.
    pub fn to_byte(self) -> (byte: u8)
        ensures
            byte == self.spec_to_byte(),
    {
        match self {
            StorageHealth::Healthy => 0,
            StorageHealth::Idle => 1,
        }
    }

    /// The value that a byte stands for; none for a byte that no value is
    /// written as.
    pub fn from_byte(byte: u8) -> (health: Option<StorageHealth>)
        ensures
            health == Self::spec_from_byte(byte),
    {
        if byte == 0 {
            Some(StorageHealth::Healthy)
        } else if byte == 1 {
            Some(StorageHealth::Idle)
        } else {
            None
        }
    }
}

/// Reading back the byte of a value gives the value, and only the bytes of
/// the values are read as one.
pub proof fn lemma_health_byte_round_trip(health: StorageHealth, byte: u8)
    ensures
        StorageHealth::spec_from_byte(health.spec_to_byte()) == Some(health),
        StorageHealth::spec_from_byte(byte) == Some(health) <==> byte == health.spec_to_byte(),
{
}

impl Packable for StorageHealth {
    /// A health flag is stored as its one byte.
    open spec fn spec_pack(&self) -> Seq<u8> {
        seq![self.spec_to_byte()]
    }

    proof fn lemma_pack_injective(a: Self, b: Self) {
        assert(seq![a.spec_to_byte()][0] == a.spec_to_byte());
        assert(seq![b.spec_to_byte()][0] == b.spec_to_byte());
    }

    fn pack(&self) -> (bytes: Vec<u8>) {
        let mut bytes: Vec<u8> = Vec::new();
        bytes.push(self.to_byte());
        assert(bytes@ =~= seq![self.spec_to_byte()]);
        bytes
    }

    fn unpack(bytes: &[u8]) -> (r: Result<Self, DecodeError>) {
        if bytes.len() != 1 {
            return Err(DecodeError);
        }
        let byte: u8 = bytes[0];
        match StorageHealth::from_byte(byte) {
            Some(health) => {
                assert(bytes@ =~= seq![health.spec_to_byte()]);
                Ok(health)
            },
            None => {
                assert forall|v: StorageHealth| #[trigger] v.spec_pack() != bytes@ by {
                    assert(v.spec_pack()[0] == v.spec_to_byte());
                }
                Err(DecodeError)
            },
        }
    }
}

} // verus!
