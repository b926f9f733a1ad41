//! Typed access to the store, one capability for each operation on each
//! key/value shape.
//!
//! A backend has a capability if it implements the interface of that
//! capability: `Fetch`, `Insert` or `Truncate` for the shape. A subsystem
//! asks for exactly the capabilities it uses, as bounds, and never sees the
//! engine. What each operation asks of the engine, and how the engine's
//! reply is read, is fixed here for every shape at once.

use vstd::prelude::*;
use crate::backend::StorageBackend;
use crate::engine::{
    records_after, reply_view, respond, Records, Reply, ReplyView, Request, RequestView,
};
use crate::error::Error;
use crate::packable::{decoded, lemma_decoded_pack, unpack_exact, Packable};
use crate::partition::Partition;

verus! {

/// The capability to read the value under a key.
pub trait Fetch<K, V>: StorageBackend {
    /// The value under `key`; `None` where the key has no entry.
    fn fetch(&self, key: &K) -> Result<Option<V>, Self::Error>;
}

/// The capability to store a value under a key.
pub trait Insert<K, V>: StorageBackend {
    /// Stores `value` under `key`, in place of any value that is there.
    fn insert(&self, key: &K, value: &V) -> Result<(), Self::Error>;
}

/// The capability to remove every entry of a key/value shape.
pub trait Truncate<K, V>: StorageBackend {
    /// Removes every entry of the shape.
    fn truncate(&self) -> Result<(), Self::Error>;
}

/// A key type of a key/value shape: the keys of values of type `V`. A shape
/// has one partition, which its operations share.
pub trait KeyOf<V: Packable>: Packable {
    /// The partition that holds the entries of the shape.
    spec fn spec_partition() -> Partition;

    /// The partition that holds the entries of the shape.
    fn partition() -> (partition: Partition)
        ensures
            partition == Self::spec_partition(),
    ;
}

/// What a fetch asks of the engine.
pub open spec fn spec_fetch_request<K: KeyOf<V>, V: Packable>(key: K) -> RequestView {
    RequestView::Get { partition: K::spec_partition(), key: key.spec_pack() }
}

/// What an insert asks of the engine.
pub open spec fn spec_insert_request<K: KeyOf<V>, V: Packable>(key: K, value: V) -> RequestView {
    RequestView::Put {
        partition: K::spec_partition(),
        key: key.spec_pack(),
        value: value.spec_pack(),
    }
}

/// What a truncate asks of the engine.
pub open spec fn spec_truncate_request<K: KeyOf<V>, V: Packable>() -> RequestView {
    RequestView::Truncate(K::spec_partition())
}

/// What a fetch returns for a reply of the engine: nothing for an absent
/// key, the decoded value for a present one, the engine's error unchanged,
/// and a decode error for bytes that encode no value.
pub open spec fn spec_fetch_reply<V: Packable>(reply: ReplyView) -> Result<Option<V>, Error> {
    match reply {
        Err(error) => Err(Error::Engine(error)),
        Ok(None) => Ok(None),
        Ok(Some(bytes)) => match decoded::<V>(bytes) {
            Some(value) => Ok(Some(value)),
            None => Err(Error::Decode),
        },
    }
}

/// What a write returns for a reply of the engine: the engine's error
/// unchanged, or success.
pub open spec fn spec_write_reply(reply: ReplyView) -> Result<(), Error> {
    match reply {
        Err(error) => Err(Error::Engine(error)),
        Ok(_) => Ok(()),
    }
}

/// The request of a fetch: a read of the encoded key in the partition of the
/// shape.
pub fn fetch_request<K: KeyOf<V>, V: Packable>(key: &K) -> (request: Request)
    ensures
        request@ == spec_fetch_request::<K, V>(*key),
{
    Request::Get { partition: K::partition(), key: key.pack() }
}

/// Reads the reply to a fetch.
pub fn fetch_reply<V: Packable>(reply: Reply) -> (r: Result<Option<V>, Error>)
    ensures
        r == spec_fetch_reply::<V>(reply_view(reply)),
{
    match reply {
        Err(error) => Err(Error::Engine(error)),
        Ok(None) => Ok(None),
        Ok(Some(bytes)) => match unpack_exact::<V>(bytes.as_slice()) {
            Ok(value) => Ok(Some(value)),
            Err(_) => Err(Error::Decode),
        },
    }
}

/// The request of an insert: a write of the encoded value under the encoded
/// key in the partition of the shape.
pub fn insert_request<K: KeyOf<V>, V: Packable>(key: &K, value: &V) -> (request: Request)
    ensures
        request@ == spec_insert_request::<K, V>(*key, *value),
{
    Request::Put { partition: K::partition(), key: key.pack(), value: value.pack() }
}

/// The request of a truncate: the removal of every entry of the partition of
/// the shape.
pub fn truncate_request<K: KeyOf<V>, V: Packable>() -> (request: Request)
    ensures
        request@ == spec_truncate_request::<K, V>(),
{
    Request::Truncate(K::partition())
}

/// Reads the reply to an insert or a truncate.
pub fn write_reply(reply: Reply) -> (r: Result<(), Error>)
    ensures
        r == spec_write_reply(reply_view(reply)),
{
    match reply {
        Err(error) => Err(Error::Engine(error)),
        Ok(_) => Ok(()),
    }
}

/// After an insert, a fetch of the same key returns the inserted value.
pub proof fn lemma_insert_then_fetch<K: KeyOf<V>, V: Packable>(records: Records, key: K, value: V)
    ensures
        spec_fetch_reply::<V>(
            respond(
                records_after(records, spec_insert_request::<K, V>(key, value)),
                spec_fetch_request::<K, V>(key),
            ),
        ) == Ok::<Option<V>, Error>(Some(value)),
{
    lemma_decoded_pack::<V>(value);
}

/// A fetch of a key that has no entry returns no value, and no error.
pub proof fn lemma_fetch_absent<K: KeyOf<V>, V: Packable>(records: Records, key: K)
    requires
        !records.dom().contains((K::spec_partition(), key.spec_pack())),
    ensures
        spec_fetch_reply::<V>(respond(records, spec_fetch_request::<K, V>(key))) == Ok::<
            Option<V>,
            Error,
        >(None),
{
}

/// An insert changes the entry under its key and no other entry.
pub proof fn lemma_insert_leaves_others<K: KeyOf<V>, V: Packable>(
    records: Records,
    key: K,
    value: V,
    partition: Partition,
    other: Seq<u8>,
)
    requires
        (partition, other) != (K::spec_partition(), key.spec_pack()),
    ensures
        respond(
            records_after(records, spec_insert_request::<K, V>(key, value)),
            RequestView::Get { partition, key: other },
        ) == respond(records, RequestView::Get { partition, key: other }),
{
}

/// A truncate removes every entry of its shape: afterwards a fetch of any
/// key of the shape returns no value.
pub proof fn lemma_truncate_removes_all<K: KeyOf<V>, V: Packable>(records: Records, key: K)
    ensures
        spec_fetch_reply::<V>(
            respond(
                records_after(records, spec_truncate_request::<K, V>()),
                spec_fetch_request::<K, V>(key),
            ),
        ) == Ok::<Option<V>, Error>(None),
        forall|any: Seq<u8>|
            !(#[trigger] records_after(
                records,
                spec_truncate_request::<K, V>(),
            ).dom().contains((K::spec_partition(), any))),
{
}

/// A truncate leaves every other partition as it was: the same keys, with
/// the same values.
pub proof fn lemma_truncate_leaves_others<K: KeyOf<V>, V: Packable>(
    records: Records,
    partition: Partition,
    key: Seq<u8>,
)
    requires
        partition != K::spec_partition(),
    ensures
        records_after(records, spec_truncate_request::<K, V>()).dom().contains((partition, key))
            == records.dom().contains((partition, key)),
        records.dom().contains((partition, key)) ==> records_after(
            records,
            spec_truncate_request::<K, V>(),
        )[(partition, key)] == records[(partition, key)],
        respond(
            records_after(records, spec_truncate_request::<K, V>()),
            RequestView::Get { partition, key },
        ) == respond(records, RequestView::Get { partition, key }),
{
}

/// Inserts into two shapes with different partitions do not interfere: in
/// whichever order the engine performs them, the entries are the same
/// afterwards, and each value is fetched under its key.
pub proof fn lemma_disjoint_inserts<K1: KeyOf<V1>, V1: Packable, K2: KeyOf<V2>, V2: Packable>(
    records: Records,
    key1: K1,
    value1: V1,
    key2: K2,
    value2: V2,
)
    requires
        K1::spec_partition() != K2::spec_partition(),
    ensures
        records_after(
            records_after(records, spec_insert_request::<K1, V1>(key1, value1)),
            spec_insert_request::<K2, V2>(key2, value2),
        ) == records_after(
            records_after(records, spec_insert_request::<K2, V2>(key2, value2)),
            spec_insert_request::<K1, V1>(key1, value1),
        ),
        spec_fetch_reply::<V1>(
            respond(
                records_after(
                    records_after(records, spec_insert_request::<K1, V1>(key1, value1)),
                    spec_insert_request::<K2, V2>(key2, value2),
                ),
                spec_fetch_request::<K1, V1>(key1),
            ),
        ) == Ok::<Option<V1>, Error>(Some(value1)),
        spec_fetch_reply::<V2>(
            respond(
                records_after(
                    records_after(records, spec_insert_request::<K1, V1>(key1, value1)),
                    spec_insert_request::<K2, V2>(key2, value2),
                ),
                spec_fetch_request::<K2, V2>(key2),
            ),
        ) == Ok::<Option<V2>, Error>(Some(value2)),
{
    lemma_decoded_pack::<V1>(value1);
    lemma_decoded_pack::<V2>(value2);
    let a = spec_insert_request::<K1, V1>(key1, value1);
    let b = spec_insert_request::<K2, V2>(key2, value2);
    assert(records_after(records_after(records, a), b) =~= records_after(
        records_after(records, b),
        a,
    ));
}

} // verus!
