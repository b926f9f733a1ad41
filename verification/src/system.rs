//! The records of the reserved system partition.

use vstd::prelude::*;
use vstd::slice::slice_subrange;
use crate::access::KeyOf;
use crate::engine::{reply_view, Reply, ReplyView};
use crate::error::{DecodeError, Error};
use crate::health::StorageHealth;
use crate::integer::{
    lemma_u64_le, lemma_u64_le_injective, spec_u64_le, u64_from_le, u64_to_le,
};
use crate::packable::{decoded, unpack_exact, Packable};
use crate::partition::Partition;

verus! {

/// The version of the stored layout that this layer writes and expects.
pub const STORAGE_VERSION: u64 = 0;

/// The key of the version record in the system partition.
pub const STORAGE_VERSION_KEY: u8 = 0;

/// The key of the health record in the system partition.
pub const STORAGE_HEALTH_KEY: u8 = 1;

/// The tag byte that opens an encoded version record.
pub const SYSTEM_VERSION_TAG: u8 = 0;

/// The tag byte that opens an encoded health record.
pub const SYSTEM_HEALTH_TAG: u8 = 1;

/// A record of the system partition.
#[derive(Clone, Copy, Debug, PartialEq, Eq, Structural)]
pub enum System {
    /// The version of the stored layout.
    Version(u64),
    /// The health flag of the store.
    Health(StorageHealth),
}

impl Packable for System {
    /// A record is stored as its tag byte, then its payload: the version as
    /// eight bytes, low byte first, or the health flag as its one byte.
    open spec fn spec_pack(&self) -> Seq<u8> {
        match *self {
            System::Version(version) => seq![SYSTEM_VERSION_TAG] + spec_u64_le(version),
            System::Health(health) => seq![SYSTEM_HEALTH_TAG, health.spec_to_byte()],
        }
    }

    proof fn lemma_pack_injective(a: Self, b: Self) {
        lemma_system_pack_shape(a);
        lemma_system_pack_shape(b);
        match (a, b) {
            (System::Version(x), System::Version(y)) => {
                lemma_u64_le_injective(x, y);
            },
            (System::Health(x), System::Health(y)) => {
                assert(a.spec_pack()[1] == x.spec_to_byte());
                assert(b.spec_pack()[1] == y.spec_to_byte());
            },
            _ => {},
        }
    }

    fn pack(&self) -> (bytes: Vec<u8>) {
        let mut bytes: Vec<u8> = Vec::new();
        match *self {
            System::Version(version) => {
                bytes.push(SYSTEM_VERSION_TAG);
                let mut payload = u64_to_le(version);
                bytes.append(&mut payload);
                assert(bytes@ =~= seq![SYSTEM_VERSION_TAG] + spec_u64_le(version));
            },
            System::Health(health) => {
                bytes.push(SYSTEM_HEALTH_TAG);
                bytes.push(health.to_byte());
                assert(bytes@ =~= seq![SYSTEM_HEALTH_TAG, health.spec_to_byte()]);
            },
        }
        bytes
    }

    fn unpack(bytes: &[u8]) -> (r: Result<Self, DecodeError>) {
        proof {
            assert forall|v: System| #[trigger] v.spec_pack() == bytes@ implies {
                &&& v is Version ==> bytes@.len() == 9 && bytes@[0] == SYSTEM_VERSION_TAG
                &&& v is Health ==> bytes@.len() == 2 && bytes@[0] == SYSTEM_HEALTH_TAG
                    && StorageHealth::spec_from_byte(bytes@[1]) is Some
            } by {
                lemma_system_pack_shape(v);
            }
        }
        if bytes.len() == 0 {
            return Err(DecodeError);
        }
        let tag: u8 = bytes[0];
        if tag == SYSTEM_VERSION_TAG {
            if bytes.len() != 9 {
                return Err(DecodeError);
            }
            let payload = slice_subrange(bytes, 1, 9);
            assert(bytes@ =~= seq![SYSTEM_VERSION_TAG] + payload@);
            match u64_from_le(payload) {
                Some(version) => Ok(System::Version(version)),
                None => Err(DecodeError),
            }
        } else if tag == SYSTEM_HEALTH_TAG {
            if bytes.len() != 2 {
                return Err(DecodeError);
            }
            match StorageHealth::from_byte(bytes[1]) {
                Some(health) => {
                    assert(bytes@ =~= seq![SYSTEM_HEALTH_TAG, health.spec_to_byte()]);
                    Ok(System::Health(health))
                },
                None => Err(DecodeError),
            }
        } else {
            Err(DecodeError)
        }
    }
}

/// System records lie under one-byte keys in the system partition.
impl KeyOf<System> for u8 {
    open spec fn spec_partition() -> Partition {
        Partition::System
    }

    fn partition() -> (partition: Partition) {
        Partition::System
    }
}

/// The record that bytes found under a system key hold, where `tag` is the
/// tag of the records that belong under `key`. Bytes that do not begin with
/// that tag are corruption, whatever follows; bytes that begin with it and
/// are the encoding of no record are a decode failure.
pub open spec fn spec_system_record(key: u8, tag: u8, bytes: Seq<u8>) -> Result<System, Error> {
    if bytes.len() == 0 || bytes[0] != tag {
        Err(Error::CorruptSystemRecord(key))
    } else {
        match decoded::<System>(bytes) {
            Some(record) => Ok(record),
            None => Err(Error::Decode),
        }
    }
}

/// What the read of a system record returns for a reply of the engine:
/// nothing where the key has no entry, the engine's error unchanged, and
/// otherwise what `spec_system_record` says of the bytes.
pub open spec fn spec_system_reply(key: u8, tag: u8, reply: ReplyView) -> Result<
    Option<System>,
    Error,
> {
    match reply {
        Err(error) => Err(Error::Engine(error)),
        Ok(None) => Ok(None),
        Ok(Some(bytes)) => match spec_system_record(key, tag, bytes) {
            Ok(record) => Ok(Some(record)),
            Err(error) => Err(error),
        },
    }
}

/// Reads the engine's reply to the read of the system record under `key`,
/// where `tag` is the tag of the records that belong there. Stored bytes
/// with another tag, or with none, are reported as corruption under that
/// key, and are never taken for a record.
pub fn system_reply(key: u8, tag: u8, reply: Reply) -> (r: Result<Option<System>, Error>)
    ensures
        r == spec_system_reply(key, tag, reply_view(reply)),
{
    match reply {
        Err(error) => Err(Error::Engine(error)),
        Ok(None) => Ok(None),
        Ok(Some(bytes)) => {
            if bytes.len() == 0 || bytes[0] != tag {
                return Err(Error::CorruptSystemRecord(key));
            }
            match unpack_exact::<System>(bytes.as_slice()) {
                Ok(record) => Ok(Some(record)),
                Err(_) => Err(Error::Decode),
            }
        },
    }
}

/// What the version check decides for the record found under the version
/// key: the record to write where none is stored, nothing to write where the
/// stored version is the current one, and otherwise the error.
pub open spec fn spec_version_check(stored: Option<System>) -> Result<Option<System>, Error> {
    match stored {
        None => Ok(Some(System::Version(STORAGE_VERSION))),
        Some(System::Version(version)) => if version == STORAGE_VERSION {
            Ok(None)
        } else {
            Err(Error::VersionMismatch(version, STORAGE_VERSION))
        },
        Some(System::Health(_)) => Err(Error::CorruptSystemRecord(STORAGE_VERSION_KEY)),
    }
}

/// The health flag in the record found under the health key: none where no
/// record is stored, and an error where the record is of the other kind.
pub open spec fn spec_read_health(stored: Option<System>) -> Result<Option<StorageHealth>, Error> {
    match stored {
        None => Ok(None),
        Some(System::Health(health)) => Ok(Some(health)),
        Some(System::Version(_)) => Err(Error::CorruptSystemRecord(STORAGE_HEALTH_KEY)),
    }
}

/// What the health check decides for the stored flag: a store may be opened
/// if no flag is stored or the flag is `Healthy`.
pub open spec fn spec_health_check(health: Option<StorageHealth>) -> Result<(), Error> {
    match health {
        None => Ok(()),
        Some(StorageHealth::Healthy) => Ok(()),
        Some(other) => Err(Error::UnhealthyStorage(other)),
    }
}

/// Decides what a start does about the version, from the record found under
/// the version key. A first run writes the current version; a store of the
/// current version is left as it is; a store of another version is refused
/// with both versions, the stored one first. A health record under the
/// version key is reported as corruption.
pub fn version_check(stored: Option<System>) -> (r: Result<Option<System>, Error>)
    ensures
        r == spec_version_check(stored),
{
    match stored {
        None => Ok(Some(System::Version(STORAGE_VERSION))),
        Some(System::Version(version)) => {
            if version == STORAGE_VERSION {
                Ok(None)
            } else {
                Err(Error::VersionMismatch(version, STORAGE_VERSION))
            }
        },
        Some(System::Health(_)) => Err(Error::CorruptSystemRecord(STORAGE_VERSION_KEY)),
    }
}

/// Reads the health flag from the record found under the health key. A
/// version record under the health key is reported as corruption.
pub fn read_health(stored: Option<System>) -> (r: Result<Option<StorageHealth>, Error>)
    ensures
        r == spec_read_health(stored),
{
    match stored {
        None => Ok(None),
        Some(System::Health(health)) => Ok(Some(health)),
        Some(System::Version(_)) => Err(Error::CorruptSystemRecord(STORAGE_HEALTH_KEY)),
    }
}

/// Decides whether a store with the given stored flag may be opened. A flag
/// other than `Healthy` means that the last run did not close the store, and
/// is refused with the flag.
pub fn health_check(health: Option<StorageHealth>) -> (r: Result<(), Error>)
    ensures
        r == spec_health_check(health),
{
    match health {
        None => Ok(()),
        Some(StorageHealth::Healthy) => Ok(()),
        Some(other) => Err(Error::UnhealthyStorage(other)),
    }
}

/// The length and the bytes of an encoded record, by its kind.
pub proof fn lemma_system_pack_shape(record: System)
    ensures
        record.spec_pack().len() == (if record is Version { 9int } else { 2int }),
        record.spec_pack()[0] == (if record is Version {
            SYSTEM_VERSION_TAG
        } else {
            SYSTEM_HEALTH_TAG
        }),
        record matches System::Health(health) ==> record.spec_pack()[1] == health.spec_to_byte()
            && StorageHealth::spec_from_byte(record.spec_pack()[1]) == Some(health),
        record matches System::Version(version) ==> record.spec_pack().subrange(1, 9)
            == spec_u64_le(version),
{
    match record {
        System::Version(version) => {
            lemma_u64_le(version, Seq::empty());
            assert(record.spec_pack().subrange(1, 9) =~= spec_u64_le(version));
        },
        System::Health(health) => {},
    }
}

} // verus!
