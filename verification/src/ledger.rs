//! The records that the ledger and snapshot subsystems keep in the store,
//! with their encodings and the partition of each key/value shape.
//!
//! Every record has a fixed length. Integers are stored low byte first.

use vstd::prelude::*;
use vstd::slice::slice_subrange;
use crate::access::KeyOf;
use crate::error::DecodeError;
use crate::integer::{
    lemma_u16_le_injective, lemma_u32_le, lemma_u32_le_injective, lemma_u64_le_injective,
    spec_u16_le, spec_u32_le, spec_u64_le, u16_from_le, u16_to_le, u32_from_le, u32_to_le,
    u64_from_le, u64_to_le,
};
use crate::packable::Packable;
use crate::partition::Partition;

verus! {

/// The index of a milestone.
#[derive(Clone, Copy, Debug, PartialEq, Eq)]
pub struct MilestoneIndex(pub u32);

/// The index of the milestone up to which the ledger state is applied.
#[derive(Clone, Copy, Debug, PartialEq, Eq)]
pub struct LedgerIndex(pub MilestoneIndex);

/// A message that counts as solid without its past, by its identifier.
#[derive(Clone, Copy, Debug, PartialEq, Eq)]
pub struct SolidEntryPoint(pub [u8; 32]);

/// An Ed25519 address.
#[derive(Clone, Copy, Debug, PartialEq, Eq)]
pub struct Ed25519Address(pub [u8; 32]);

/// The identifier of an output: the transaction that made it, and its place
/// among the outputs of that transaction.
#[derive(Clone, Copy, Debug, PartialEq, Eq)]
pub struct OutputId {
    pub transaction_id: [u8; 32],
    pub index: u16,
}

/// The marker of an output that has not been spent.
#[derive(Clone, Copy, Debug, PartialEq, Eq)]
pub struct Unspent(pub OutputId);

/// An output of the ledger: the message that holds it, the address that owns
/// it and its amount.
#[derive(Clone, Copy, Debug, PartialEq, Eq)]
pub struct Output {
    pub message_id: [u8; 32],
    pub address: Ed25519Address,
    pub amount: u64,
}

/// What is known of the snapshot that the store was filled from.
#[derive(Clone, Copy, Debug, PartialEq, Eq)]
pub struct SnapshotInfo {
    pub network_id: u64,
    pub snapshot_index: MilestoneIndex,
    pub entry_point_index: MilestoneIndex,
    pub pruning_index: MilestoneIndex,
    pub timestamp: u64,
}

/// Two sequences that are equal, each made of two parts, with first parts of
/// one length, have equal parts.
pub proof fn lemma_split_equal(a1: Seq<u8>, b1: Seq<u8>, a2: Seq<u8>, b2: Seq<u8>)
    requires
        a1 + b1 == a2 + b2,
        a1.len() == a2.len(),
    ensures
        a1 == a2,
        b1 == b2,
{
    let n = a1.len() as int;
    let whole = a1 + b1;
    assert(whole.subrange(0, n) =~= a1);
    assert(whole.subrange(0, n) =~= a2);
    assert(whole.subrange(n, whole.len() as int) =~= b1);
    assert(whole.subrange(n, whole.len() as int) =~= b2);
}

/// Copies the 32 bytes of an identifier.
pub fn pack_bytes32(id: &[u8; 32]) -> (bytes: Vec<u8>)
    ensures
        bytes@ == id@,
{
    let mut bytes: Vec<u8> = Vec::new();
    let mut i: usize = 0;
    while i < 32
        invariant
            i <= 32,
            bytes@ == id@.subrange(0, i as int),
        decreases 32 - i,
    {
        bytes.push(id[i]);
        assert(bytes@ =~= id@.subrange(0, i + 1));
        i = i + 1;
    }
    assert(id@.subrange(0, 32) =~= id@);
    bytes
}

/// Reads an identifier of 32 bytes: exactly what is given, if that is 32
/// bytes long, and nothing otherwise.
pub fn unpack_bytes32(bytes: &[u8]) -> (id: Option<[u8; 32]>)
    ensures
        id is Some <==> bytes@.len() == 32,
        id matches Some(a) ==> a@ == bytes@,
{
    if bytes.len() != 32 {
        return None;
    }
    let mut id: [u8; 32] = [0u8; 32];
    let mut i: usize = 0;
    while i < 32
        invariant
            i <= 32,
            bytes@.len() == 32,
            forall|j: int| 0 <= j < i ==> id@[j] == bytes@[j],
        decreases 32 - i,
    {
        id[i] = bytes[i];
        i = i + 1;
    }
    assert(id@ =~= bytes@);
    Some(id)
}

impl Packable for MilestoneIndex {
    /// A milestone index is stored as four bytes.
    open spec fn spec_pack(&self) -> Seq<u8> {
        spec_u32_le(self.0)
    }

    proof fn lemma_pack_injective(a: Self, b: Self) {
        lemma_u32_le_injective(a.0, b.0);
    }

    fn pack(&self) -> (bytes: Vec<u8>) {
        u32_to_le(self.0)
    }

    fn unpack(bytes: &[u8]) -> (r: Result<Self, DecodeError>) {
        match u32_from_le(bytes) {
            Some(index) => Ok(MilestoneIndex(index)),
            None => {
                assert forall|v: MilestoneIndex| #[trigger] v.spec_pack() != bytes@ by {
                    lemma_u32_le(v.0, Seq::empty());
                }
                Err(DecodeError)
            },
        }
    }
}

impl Packable for LedgerIndex {
    /// A ledger index is stored as its milestone index.
    open spec fn spec_pack(&self) -> Seq<u8> {
        self.0.spec_pack()
    }

    proof fn lemma_pack_injective(a: Self, b: Self) {
        MilestoneIndex::lemma_pack_injective(a.0, b.0);
    }

    fn pack(&self) -> (bytes: Vec<u8>) {
        self.0.pack()
    }

    fn unpack(bytes: &[u8]) -> (r: Result<Self, DecodeError>) {
        match MilestoneIndex::unpack(bytes) {
            Ok(index) => Ok(LedgerIndex(index)),
            Err(error) => {
                assert forall|v: LedgerIndex| #[trigger] v.spec_pack() != bytes@ by {
                    assert(v.0.spec_pack() != bytes@);
                }
                Err(error)
            },
        }
    }
}

impl Packable for SolidEntryPoint {
    /// A solid entry point is stored as the 32 bytes of its identifier.
    open spec fn spec_pack(&self) -> Seq<u8> {
        self.0@
    }

    proof fn lemma_pack_injective(a: Self, b: Self) {
        assert(a.0@ =~= b.0@);
        assert(a.0 == b.0);
    }

    fn pack(&self) -> (bytes: Vec<u8>) {
        pack_bytes32(&self.0)
    }

    fn unpack(bytes: &[u8]) -> (r: Result<Self, DecodeError>) {
        match unpack_bytes32(bytes) {
            Some(id) => Ok(SolidEntryPoint(id)),
            None => {
                assert forall|v: SolidEntryPoint| #[trigger] v.spec_pack() != bytes@ by {
                    assert(v.0@.len() == 32);
                }
                Err(DecodeError)
            },
        }
    }
}

impl Packable for Ed25519Address {
    /// An address is stored as its 32 bytes.
    open spec fn spec_pack(&self) -> Seq<u8> {
        self.0@
    }

    proof fn lemma_pack_injective(a: Self, b: Self) {
        assert(a.0@ =~= b.0@);
        assert(a.0 == b.0);
    }

    fn pack(&self) -> (bytes: Vec<u8>) {
        pack_bytes32(&self.0)
    }

    fn unpack(bytes: &[u8]) -> (r: Result<Self, DecodeError>) {
        match unpack_bytes32(bytes) {
            Some(id) => Ok(Ed25519Address(id)),
            None => {
                assert forall|v: Ed25519Address| #[trigger] v.spec_pack() != bytes@ by {
                    assert(v.0@.len() == 32);
                }
                Err(DecodeError)
            },
        }
    }
}

impl Packable for OutputId {
    /// An output identifier is stored as the 32 bytes of the transaction
    /// identifier, then the index as two bytes.
    open spec fn spec_pack(&self) -> Seq<u8> {
        self.transaction_id@ + spec_u16_le(self.index)
    }

    proof fn lemma_pack_injective(a: Self, b: Self) {
        lemma_split_equal(
            a.transaction_id@,
            spec_u16_le(a.index),
            b.transaction_id@,
            spec_u16_le(b.index),
        );
        assert(a.transaction_id == b.transaction_id);
        lemma_u16_le_injective(a.index, b.index);
    }

    fn pack(&self) -> (bytes: Vec<u8>) {
        let mut bytes = pack_bytes32(&self.transaction_id);
        let mut index = u16_to_le(self.index);
        bytes.append(&mut index);
        bytes
    }

    fn unpack(bytes: &[u8]) -> (r: Result<Self, DecodeError>) {
        if bytes.len() != 34 {
            assert forall|v: OutputId| #[trigger] v.spec_pack() != bytes@ by {
                assert(v.spec_pack().len() == 34);
            }
            return Err(DecodeError);
        }
        let head = slice_subrange(bytes, 0, 32);
        let tail = slice_subrange(bytes, 32, 34);
        assert(bytes@ =~= head@ + tail@);
        match (unpack_bytes32(head), u16_from_le(tail)) {
            (Some(transaction_id), Some(index)) => Ok(OutputId { transaction_id, index }),
            _ => Err(DecodeError),
        }
    }
}

/// An encoded output identifier is 34 bytes long.
pub proof fn lemma_output_id_length(id: OutputId)
    ensures
        id.spec_pack().len() == 34,
{
}

impl Packable for Unspent {
    /// An unspent marker is stored as the identifier of its output.
    open spec fn spec_pack(&self) -> Seq<u8> {
        self.0.spec_pack()
    }

    proof fn lemma_pack_injective(a: Self, b: Self) {
        OutputId::lemma_pack_injective(a.0, b.0);
    }

    fn pack(&self) -> (bytes: Vec<u8>) {
        self.0.pack()
    }

    fn unpack(bytes: &[u8]) -> (r: Result<Self, DecodeError>) {
        match OutputId::unpack(bytes) {
            Ok(id) => Ok(Unspent(id)),
            Err(error) => {
                assert forall|v: Unspent| #[trigger] v.spec_pack() != bytes@ by {
                    assert(v.0.spec_pack() != bytes@);
                }
                Err(error)
            },
        }
    }
}

impl Packable for (Ed25519Address, OutputId) {
    /// An address with one of its outputs is stored as the address, then the
    /// output identifier.
    open spec fn spec_pack(&self) -> Seq<u8> {
        self.0.spec_pack() + self.1.spec_pack()
    }

    proof fn lemma_pack_injective(a: Self, b: Self) {
        lemma_split_equal(a.0.spec_pack(), a.1.spec_pack(), b.0.spec_pack(), b.1.spec_pack());
        Ed25519Address::lemma_pack_injective(a.0, b.0);
        OutputId::lemma_pack_injective(a.1, b.1);
    }

    fn pack(&self) -> (bytes: Vec<u8>) {
        let mut bytes = self.0.pack();
        let mut id = self.1.pack();
        bytes.append(&mut id);
        bytes
    }

    fn unpack(bytes: &[u8]) -> (r: Result<Self, DecodeError>) {
        if bytes.len() != 66 {
            assert forall|v: (Ed25519Address, OutputId)| #[trigger]
                v.spec_pack() != bytes@ by {
                lemma_output_id_length(v.1);
            }
            return Err(DecodeError);
        }
        let head = slice_subrange(bytes, 0, 32);
        let tail = slice_subrange(bytes, 32, 66);
        assert(bytes@ =~= head@ + tail@);
        let address = match Ed25519Address::unpack(head) {
            Ok(address) => address,
            Err(error) => {
                assert forall|v: (Ed25519Address, OutputId)| #[trigger]
                    v.spec_pack() != bytes@ by {
                    if v.spec_pack() == bytes@ {
                        lemma_split_equal(v.0.spec_pack(), v.1.spec_pack(), head@, tail@);
                    }
                }
                return Err(error);
            },
        };
        match OutputId::unpack(tail) {
            Ok(id) => Ok((address, id)),
            Err(error) => {
                assert forall|v: (Ed25519Address, OutputId)| #[trigger]
                    v.spec_pack() != bytes@ by {
                    if v.spec_pack() == bytes@ {
                        lemma_split_equal(v.0.spec_pack(), v.1.spec_pack(), head@, tail@);
                    }
                }
                Err(error)
            },
        }
    }
}

impl Packable for Output {
    /// An output is stored as the 32 bytes of its message identifier, the 32
    /// bytes of its address and its amount as eight bytes.
    open spec fn spec_pack(&self) -> Seq<u8> {
        self.message_id@ + (self.address.spec_pack() + spec_u64_le(self.amount))
    }

    proof fn lemma_pack_injective(a: Self, b: Self) {
        lemma_split_equal(
            a.message_id@,
            a.address.spec_pack() + spec_u64_le(a.amount),
            b.message_id@,
            b.address.spec_pack() + spec_u64_le(b.amount),
        );
        lemma_split_equal(
            a.address.spec_pack(),
            spec_u64_le(a.amount),
            b.address.spec_pack(),
            spec_u64_le(b.amount),
        );
        assert(a.message_id == b.message_id);
        Ed25519Address::lemma_pack_injective(a.address, b.address);
        lemma_u64_le_injective(a.amount, b.amount);
    }

    fn pack(&self) -> (bytes: Vec<u8>) {
        let mut bytes = pack_bytes32(&self.message_id);
        let mut address = self.address.pack();
        let mut amount = u64_to_le(self.amount);
        bytes.append(&mut address);
        bytes.append(&mut amount);
        assert(bytes@ =~= self.spec_pack());
        bytes
    }

    fn unpack(bytes: &[u8]) -> (r: Result<Self, DecodeError>) {
        if bytes.len() != 72 {
            assert forall|v: Output| #[trigger] v.spec_pack() != bytes@ by {
                assert(v.spec_pack().len() == 72);
            }
            return Err(DecodeError);
        }
        let first = slice_subrange(bytes, 0, 32);
        let second = slice_subrange(bytes, 32, 64);
        let third = slice_subrange(bytes, 64, 72);
        assert(bytes@ =~= first@ + (second@ + third@));
        match (unpack_bytes32(first), unpack_bytes32(second), u64_from_le(third)) {
            (Some(message_id), Some(address), Some(amount)) => Ok(
                Output { message_id, address: Ed25519Address(address), amount },
            ),
            _ => Err(DecodeError),
        }
    }
}

impl Packable for SnapshotInfo {
    /// Snapshot information is stored as the network identifier in eight
    /// bytes, the snapshot, entry point and pruning indexes in four bytes
    /// each, and the timestamp in eight bytes.
    open spec fn spec_pack(&self) -> Seq<u8> {
        spec_u64_le(self.network_id) + (self.snapshot_index.spec_pack() + (
        self.entry_point_index.spec_pack() + (self.pruning_index.spec_pack()
            + spec_u64_le(self.timestamp))))
    }

    proof fn lemma_pack_injective(a: Self, b: Self) {
        let a4 = spec_u64_le(a.timestamp);
        let b4 = spec_u64_le(b.timestamp);
        let a3 = a.pruning_index.spec_pack() + a4;
        let b3 = b.pruning_index.spec_pack() + b4;
        let a2 = a.entry_point_index.spec_pack() + a3;
        let b2 = b.entry_point_index.spec_pack() + b3;
        let a1 = a.snapshot_index.spec_pack() + a2;
        let b1 = b.snapshot_index.spec_pack() + b2;
        lemma_split_equal(
            spec_u64_le(a.network_id),
            a1,
            spec_u64_le(b.network_id),
            b1,
        );
        lemma_split_equal(a.snapshot_index.spec_pack(), a2, b.snapshot_index.spec_pack(), b2);
        lemma_split_equal(a.entry_point_index.spec_pack(), a3, b.entry_point_index.spec_pack(), b3);
        lemma_split_equal(a.pruning_index.spec_pack(), a4, b.pruning_index.spec_pack(), b4);
        MilestoneIndex::lemma_pack_injective(a.snapshot_index, b.snapshot_index);
        MilestoneIndex::lemma_pack_injective(a.entry_point_index, b.entry_point_index);
        MilestoneIndex::lemma_pack_injective(a.pruning_index, b.pruning_index);
        lemma_u64_le_injective(a.network_id, b.network_id);
        lemma_u64_le_injective(a.timestamp, b.timestamp);
    }

    fn pack(&self) -> (bytes: Vec<u8>) {
        let mut bytes = u64_to_le(self.network_id);
        let mut snapshot_index = self.snapshot_index.pack();
        let mut entry_point_index = self.entry_point_index.pack();
        let mut pruning_index = self.pruning_index.pack();
        let mut timestamp = u64_to_le(self.timestamp);
        bytes.append(&mut snapshot_index);
        bytes.append(&mut entry_point_index);
        bytes.append(&mut pruning_index);
        bytes.append(&mut timestamp);
        assert(bytes@ =~= self.spec_pack());
        bytes
    }

    fn unpack(bytes: &[u8]) -> (r: Result<Self, DecodeError>) {
        if bytes.len() != 28 {
            assert forall|v: SnapshotInfo| #[trigger] v.spec_pack() != bytes@ by {
                assert(v.spec_pack().len() == 28);
            }
            return Err(DecodeError);
        }
        let b0 = slice_subrange(bytes, 0, 8);
        let b1 = slice_subrange(bytes, 8, 12);
        let b2 = slice_subrange(bytes, 12, 16);
        let b3 = slice_subrange(bytes, 16, 20);
        let b4 = slice_subrange(bytes, 20, 28);
        assert(bytes@ =~= b0@ + (b1@ + (b2@ + (b3@ + b4@))));
        match (
            u64_from_le(b0),
            u32_from_le(b1),
            u32_from_le(b2),
            u32_from_le(b3),
            u64_from_le(b4),
        ) {
            (
                Some(network_id),
                Some(snapshot_index),
                Some(entry_point_index),
                Some(pruning_index),
                Some(timestamp),
            ) => Ok(
                SnapshotInfo {
                    network_id,
                    snapshot_index: MilestoneIndex(snapshot_index),
                    entry_point_index: MilestoneIndex(entry_point_index),
                    pruning_index: MilestoneIndex(pruning_index),
                    timestamp,
                },
            ),
            _ => Err(DecodeError),
        }
    }
}

/// The snapshot information lies under the empty key of its own partition.
impl KeyOf<SnapshotInfo> for () {
    open spec fn spec_partition() -> Partition {
        Partition::SnapshotInfo
    }

    fn partition() -> (partition: Partition) {
        Partition::SnapshotInfo
    }
}

/// The ledger index lies under the empty key of its own partition.
impl KeyOf<LedgerIndex> for () {
    open spec fn spec_partition() -> Partition {
        Partition::LedgerIndex
    }

    fn partition() -> (partition: Partition) {
        Partition::LedgerIndex
    }
}

/// Each solid entry point is kept with the index of its milestone.
impl KeyOf<MilestoneIndex> for SolidEntryPoint {
    open spec fn spec_partition() -> Partition {
        Partition::SolidEntryPointToMilestoneIndex
    }

    fn partition() -> (partition: Partition) {
        Partition::SolidEntryPointToMilestoneIndex
    }
}

/// Each created output is kept under its identifier.
impl KeyOf<Output> for OutputId {
    open spec fn spec_partition() -> Partition {
        Partition::OutputIdToCreatedOutput
    }

    fn partition() -> (partition: Partition) {
        Partition::OutputIdToCreatedOutput
    }
}

/// Unspent markers are keys without a value.
impl KeyOf<()> for Unspent {
    open spec fn spec_partition() -> Partition {
        Partition::OutputIdUnspent
    }

    fn partition() -> (partition: Partition) {
        Partition::OutputIdUnspent
    }
}

/// The outputs of an address are keys without a value, which begin with the
/// address.
impl KeyOf<()> for (Ed25519Address, OutputId) {
    open spec fn spec_partition() -> Partition {
        Partition::Ed25519AddressToOutputId
    }

    fn partition() -> (partition: Partition) {
        Partition::Ed25519AddressToOutputId
    }
}

/// The keys of the outputs of an address begin with the address, which has
/// the length of the prefix hint of their partition: a scan by that prefix
/// finds the outputs of one address.
pub proof fn lemma_address_is_key_prefix(address: Ed25519Address, id: OutputId)
    ensures
        <(Ed25519Address, OutputId) as KeyOf<()>>::spec_partition().spec_prefix_length() == Some(
            32usize,
        ),
        (address, id).spec_pack().len() == 66,
        (address, id).spec_pack().subrange(0, 32) == address.spec_pack(),
{
    lemma_output_id_length(id);
    assert((address, id).spec_pack().subrange(0, 32) =~= address.spec_pack());
}

} // verus!
