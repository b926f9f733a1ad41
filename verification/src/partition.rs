//! The fixed table of logical partitions of the keyspace.
//!
//! Every key/value shape that the store holds has exactly one partition, and
//! the reserved system partition comes first. A partition whose keys begin
//! with a part of fixed length carries that length, as a hint to the engine
//! for scans by prefix and point lookups.

use vstd::prelude::*;

verus! {

pub const CF_SYSTEM: &'static str = "system";

pub const CF_MESSAGE_ID_TO_MESSAGE: &'static str = "message_id_to_message";

pub const CF_MESSAGE_ID_TO_METADATA: &'static str = "message_id_to_metadata";

pub const CF_MESSAGE_ID_TO_MESSAGE_ID: &'static str = "message_id_to_message_id";

pub const CF_INDEX_TO_MESSAGE_ID: &'static str = "index_to_message_id";

pub const CF_OUTPUT_ID_TO_CREATED_OUTPUT: &'static str = "output_id_to_created_output";

pub const CF_OUTPUT_ID_TO_CONSUMED_OUTPUT: &'static str = "output_id_to_consumed_output";

pub const CF_OUTPUT_ID_UNSPENT: &'static str = "output_id_unspent";

pub const CF_ED25519_ADDRESS_TO_OUTPUT_ID: &'static str = "ed25519_address_to_output_id";

pub const CF_LEDGER_INDEX: &'static str = "ledger_index";

pub const CF_MILESTONE_INDEX_TO_MILESTONE: &'static str = "milestone_index_to_milestone";

pub const CF_SNAPSHOT_INFO: &'static str = "snapshot_info";

pub const CF_SOLID_ENTRY_POINT_TO_MILESTONE_INDEX: &'static str =
    "solid_entry_point_to_milestone_index";

pub const CF_MILESTONE_INDEX_TO_OUTPUT_DIFF: &'static str = "milestone_index_to_output_diff";

pub const CF_ADDRESS_TO_BALANCE: &'static str = "address_to_balance";

pub const CF_MILESTONE_INDEX_TO_UNCONFIRMED_MESSAGE: &'static str =
    "milestone_index_to_unconfirmed_message";

pub const CF_MILESTONE_INDEX_TO_RECEIPT: &'static str = "milestone_index_to_receipt";

pub const CF_SPENT_TO_TREASURY_OUTPUT: &'static str = "spent_to_treasury_output";

/// The length in bytes of a message identifier.
pub const MESSAGE_ID_LENGTH: usize = 32;

/// The length in bytes of an Ed25519 address.
pub const ED25519_ADDRESS_LENGTH: usize = 32;

/// The length in bytes of an indexation index, padded to its full length.
pub const INDEXATION_PADDED_INDEX_LENGTH: usize = 64;

/// The length in bytes of an encoded milestone index.
pub const MILESTONE_INDEX_LENGTH: usize = 4;

/// The length in bytes of an encoded spent flag.
pub const SPENT_FLAG_LENGTH: usize = 1;

/// The number of partitions.
pub const PARTITION_COUNT: usize = 18;

/// A logical partition of the keyspace, in the order of the table.
#[derive(Clone, Copy, Debug, PartialEq, Eq, Hash, Structural)]
pub enum Partition {
    System,
    MessageIdToMessage,
    MessageIdToMetadata,
    MessageIdToMessageId,
    IndexToMessageId,
    OutputIdToCreatedOutput,
    OutputIdToConsumedOutput,
    OutputIdUnspent,
    Ed25519AddressToOutputId,
    LedgerIndex,
    MilestoneIndexToMilestone,
    SnapshotInfo,
    SolidEntryPointToMilestoneIndex,
    MilestoneIndexToOutputDiff,
    AddressToBalance,
    MilestoneIndexToUnconfirmedMessage,
    MilestoneIndexToReceipt,
    SpentToTreasuryOutput,
}

/// What the engine is told of one partition when the store is opened.
#[derive(Clone, Copy, Debug, PartialEq, Eq, Structural)]
pub struct ColumnFamily {
    /// The partition; its name is the name of the column family.
    pub partition: Partition,
    /// The length of the fixed key prefix that the engine may index by.
    pub prefix_length: Option<usize>,
}

impl Partition {
    /// The place of the partition in the table.
    pub open spec fn spec_index(self) -> int {
        match self {
            Partition::System => 0,
            Partition::MessageIdToMessage => 1,
            Partition::MessageIdToMetadata => 2,
            Partition::MessageIdToMessageId => 3,
            Partition::IndexToMessageId => 4,
            Partition::OutputIdToCreatedOutput => 5,
            Partition::OutputIdToConsumedOutput => 6,
            Partition::OutputIdUnspent => 7,
            Partition::Ed25519AddressToOutputId => 8,
            Partition::LedgerIndex => 9,
            Partition::MilestoneIndexToMilestone => 10,
            Partition::SnapshotInfo => 11,
            Partition::SolidEntryPointToMilestoneIndex => 12,
            Partition::MilestoneIndexToOutputDiff => 13,
            Partition::AddressToBalance => 14,
            Partition::MilestoneIndexToUnconfirmedMessage => 15,
            Partition::MilestoneIndexToReceipt => 16,
            Partition::SpentToTreasuryOutput => 17,
        }
    }

    /// The partition at a place of the table.
    pub open spec fn spec_at(index: int) -> Option<Partition> {
        if index == 0 {
            Some(Partition::System)
        } else if index == 1 {
            Some(Partition::MessageIdToMessage)
        } else if index == 2 {
            Some(Partition::MessageIdToMetadata)
        } else if index == 3 {
            Some(Partition::MessageIdToMessageId)
        } else if index == 4 {
            Some(Partition::IndexToMessageId)
        } else if index == 5 {
            Some(Partition::OutputIdToCreatedOutput)
        } else if index == 6 {
            Some(Partition::OutputIdToConsumedOutput)
        } else if index == 7 {
            Some(Partition::OutputIdUnspent)
        } else if index == 8 {
            Some(Partition::Ed25519AddressToOutputId)
        } else if index == 9 {
            Some(Partition::LedgerIndex)
        } else if index == 10 {
            Some(Partition::MilestoneIndexToMilestone)
        } else if index == 11 {
            Some(Partition::SnapshotInfo)
        } else if index == 12 {
            Some(Partition::SolidEntryPointToMilestoneIndex)
        } else if index == 13 {
            Some(Partition::MilestoneIndexToOutputDiff)
        } else if index == 14 {
            Some(Partition::AddressToBalance)
        } else if index == 15 {
            Some(Partition::MilestoneIndexToUnconfirmedMessage)
        } else if index == 16 {
            Some(Partition::MilestoneIndexToReceipt)
        } else if index == 17 {
            Some(Partition::SpentToTreasuryOutput)
        } else {
            None
        }
    }

    /// The name under which the engine keeps the partition.
    pub open spec fn spec_name(self) -> Seq<char> {
        match self {
            Partition::System => CF_SYSTEM@,
            Partition::MessageIdToMessage => CF_MESSAGE_ID_TO_MESSAGE@,
            Partition::MessageIdToMetadata => CF_MESSAGE_ID_TO_METADATA@,
            Partition::MessageIdToMessageId => CF_MESSAGE_ID_TO_MESSAGE_ID@,
            Partition::IndexToMessageId => CF_INDEX_TO_MESSAGE_ID@,
            Partition::OutputIdToCreatedOutput => CF_OUTPUT_ID_TO_CREATED_OUTPUT@,
            Partition::OutputIdToConsumedOutput => CF_OUTPUT_ID_TO_CONSUMED_OUTPUT@,
            Partition::OutputIdUnspent => CF_OUTPUT_ID_UNSPENT@,
            Partition::Ed25519AddressToOutputId => CF_ED25519_ADDRESS_TO_OUTPUT_ID@,
            Partition::LedgerIndex => CF_LEDGER_INDEX@,
            Partition::MilestoneIndexToMilestone => CF_MILESTONE_INDEX_TO_MILESTONE@,
            Partition::SnapshotInfo => CF_SNAPSHOT_INFO@,
            Partition::SolidEntryPointToMilestoneIndex => CF_SOLID_ENTRY_POINT_TO_MILESTONE_INDEX@,
            Partition::MilestoneIndexToOutputDiff => CF_MILESTONE_INDEX_TO_OUTPUT_DIFF@,
            Partition::AddressToBalance => CF_ADDRESS_TO_BALANCE@,
            Partition::MilestoneIndexToUnconfirmedMessage =>
                CF_MILESTONE_INDEX_TO_UNCONFIRMED_MESSAGE@,
            Partition::MilestoneIndexToReceipt => CF_MILESTONE_INDEX_TO_RECEIPT@,
            Partition::SpentToTreasuryOutput => CF_SPENT_TO_TREASURY_OUTPUT@,
        }
    }

    /// The length of the fixed key prefix of the partition, where its keys
    /// have one.
    pub open spec fn spec_prefix_length(self) -> Option<usize> {
        match self {
            Partition::MessageIdToMessageId => Some(MESSAGE_ID_LENGTH),
            Partition::IndexToMessageId => Some(INDEXATION_PADDED_INDEX_LENGTH),
            Partition::Ed25519AddressToOutputId => Some(ED25519_ADDRESS_LENGTH),
            Partition::MilestoneIndexToUnconfirmedMessage => Some(MILESTONE_INDEX_LENGTH),
            Partition::MilestoneIndexToReceipt => Some(MILESTONE_INDEX_LENGTH),
            Partition::SpentToTreasuryOutput => Some(SPENT_FLAG_LENGTH),
            _ => None,
        }
    }

    /// What the engine is told of the partition.
    pub open spec fn spec_column_family(self) -> ColumnFamily {
        ColumnFamily { partition: self, prefix_length: self.spec_prefix_length() }
    }

    /// The place of the partition in the table.
    pub fn index(self) -> (index: usize)
        ensures
            index == self.spec_index(),
            index < PARTITION_COUNT,
            Self::spec_at(index as int) == Some(self),
    {
        match self {
            Partition::System => 0,
            Partition::MessageIdToMessage => 1,
            Partition::MessageIdToMetadata => 2,
            Partition::MessageIdToMessageId => 3,
            Partition::IndexToMessageId => 4,
            Partition::OutputIdToCreatedOutput => 5,
            Partition::OutputIdToConsumedOutput => 6,
            Partition::OutputIdUnspent => 7,
            Partition::Ed25519AddressToOutputId => 8,
            Partition::LedgerIndex => 9,
            Partition::MilestoneIndexToMilestone => 10,
            Partition::SnapshotInfo => 11,
            Partition::SolidEntryPointToMilestoneIndex => 12,
            Partition::MilestoneIndexToOutputDiff => 13,
            Partition::AddressToBalance => 14,
            Partition::MilestoneIndexToUnconfirmedMessage => 15,
            Partition::MilestoneIndexToReceipt => 16,
            Partition::SpentToTreasuryOutput => 17,
        }
    }

    /// The partition at a place of the table; none past its end.
    pub fn at(index: usize) -> (partition: Option<Partition>)
        ensures
            partition == Self::spec_at(index as int),
            partition is Some <==> index < PARTITION_COUNT,
            partition matches Some(p) ==> p.spec_index() == index,
    {
        if index == 0 {
            Some(Partition::System)
        } else if index == 1 {
            Some(Partition::MessageIdToMessage)
        } else if index == 2 {
            Some(Partition::MessageIdToMetadata)
        } else if index == 3 {
            Some(Partition::MessageIdToMessageId)
        } else if index == 4 {
            Some(Partition::IndexToMessageId)
        } else if index == 5 {
            Some(Partition::OutputIdToCreatedOutput)
        } else if index == 6 {
            Some(Partition::OutputIdToConsumedOutput)
        } else if index == 7 {
            Some(Partition::OutputIdUnspent)
        } else if index == 8 {
            Some(Partition::Ed25519AddressToOutputId)
        } else if index == 9 {
            Some(Partition::LedgerIndex)
        } else if index == 10 {
            Some(Partition::MilestoneIndexToMilestone)
        } else if index == 11 {
            Some(Partition::SnapshotInfo)
        } else if index == 12 {
            Some(Partition::SolidEntryPointToMilestoneIndex)
        } else if index == 13 {
            Some(Partition::MilestoneIndexToOutputDiff)
        } else if index == 14 {
            Some(Partition::AddressToBalance)
        } else if index == 15 {
            Some(Partition::MilestoneIndexToUnconfirmedMessage)
        } else if index == 16 {
            Some(Partition::MilestoneIndexToReceipt)
        } else if index == 17 {
            Some(Partition::SpentToTreasuryOutput)
        } else {
            None
        }
    }

    /// The name under which the engine keeps the partition.
    pub fn name(self) -> (name: &'static str)
        ensures
            name@ == self.spec_name(),
    {
        match self {
            Partition::System => CF_SYSTEM,
            Partition::MessageIdToMessage => CF_MESSAGE_ID_TO_MESSAGE,
            Partition::MessageIdToMetadata => CF_MESSAGE_ID_TO_METADATA,
            Partition::MessageIdToMessageId => CF_MESSAGE_ID_TO_MESSAGE_ID,
            Partition::IndexToMessageId => CF_INDEX_TO_MESSAGE_ID,
            Partition::OutputIdToCreatedOutput => CF_OUTPUT_ID_TO_CREATED_OUTPUT,
            Partition::OutputIdToConsumedOutput => CF_OUTPUT_ID_TO_CONSUMED_OUTPUT,
            Partition::OutputIdUnspent => CF_OUTPUT_ID_UNSPENT,
            Partition::Ed25519AddressToOutputId => CF_ED25519_ADDRESS_TO_OUTPUT_ID,
            Partition::LedgerIndex => CF_LEDGER_INDEX,
            Partition::MilestoneIndexToMilestone => CF_MILESTONE_INDEX_TO_MILESTONE,
            Partition::SnapshotInfo => CF_SNAPSHOT_INFO,
            Partition::SolidEntryPointToMilestoneIndex => CF_SOLID_ENTRY_POINT_TO_MILESTONE_INDEX,
            Partition::MilestoneIndexToOutputDiff => CF_MILESTONE_INDEX_TO_OUTPUT_DIFF,
            Partition::AddressToBalance => CF_ADDRESS_TO_BALANCE,
            Partition::MilestoneIndexToUnconfirmedMessage =>
                CF_MILESTONE_INDEX_TO_UNCONFIRMED_MESSAGE,
            Partition::MilestoneIndexToReceipt => CF_MILESTONE_INDEX_TO_RECEIPT,
            Partition::SpentToTreasuryOutput => CF_SPENT_TO_TREASURY_OUTPUT,
        }
    }

    /// The length of the fixed key prefix of the partition, where its keys
    /// have one.
    pub fn prefix_length(self) -> (length: Option<usize>)
        ensures
            length == self.spec_prefix_length(),
    {
        match self {
            Partition::MessageIdToMessageId => Some(MESSAGE_ID_LENGTH),
            Partition::IndexToMessageId => Some(INDEXATION_PADDED_INDEX_LENGTH),
            Partition::Ed25519AddressToOutputId => Some(ED25519_ADDRESS_LENGTH),
            Partition::MilestoneIndexToUnconfirmedMessage => Some(MILESTONE_INDEX_LENGTH),
            Partition::MilestoneIndexToReceipt => Some(MILESTONE_INDEX_LENGTH),
            Partition::SpentToTreasuryOutput => Some(SPENT_FLAG_LENGTH),
            _ => None,
        }
    }

    /// What the engine is told of the partition.
    pub fn column_family(self) -> (family: ColumnFamily)
        ensures
            family == self.spec_column_family(),
    {
        ColumnFamily { partition: self, prefix_length: self.prefix_length() }
    }
}

/// The table: every partition once, in order, the system partition first.
pub open spec fn spec_column_families() -> Seq<ColumnFamily> {
    Seq::new(
        PARTITION_COUNT as nat,
        |i: int| Partition::spec_at(i).unwrap().spec_column_family(),
    )
}

/// The column families that the engine is opened with: one for each
/// partition, in the order of the table, each with its prefix hint.
pub fn column_families() -> (families: Vec<ColumnFamily>)
    ensures
        families@ == spec_column_families(),
        families@.len() == PARTITION_COUNT,
        forall|p: Partition| #[trigger]
            families@[p.spec_index()] == p.spec_column_family(),
{
    let mut families: Vec<ColumnFamily> = Vec::new();
    let mut i: usize = 0;
    while i < PARTITION_COUNT
        invariant
            i <= PARTITION_COUNT,
            families@.len() == i,
            forall|j: int|
                0 <= j < i ==> families@[j] == (#[trigger] Partition::spec_at(
                    j,
                )).unwrap().spec_column_family(),
        decreases PARTITION_COUNT - i,
    {
        match Partition::at(i) {
            Some(partition) => {
                families.push(partition.column_family());
            },
            None => {},
        }
        i = i + 1;
    }
    proof {
        assert(families@ =~= spec_column_families());
        assert forall|p: Partition| #[trigger]
            families@[p.spec_index()] == p.spec_column_family() by {
            lemma_index_round_trip(p);
        }
    }
    families
}

/// A partition stands at its own place of the table, and no other place
/// holds it.
pub proof fn lemma_index_round_trip(p: Partition)
    ensures
        0 <= p.spec_index() < PARTITION_COUNT,
        Partition::spec_at(p.spec_index()) == Some(p),
        forall|i: int| Partition::spec_at(i) == Some(p) ==> i == p.spec_index(),
{
}

/// The length of a partition's name and its first character: together they
/// tell the partitions apart.
pub proof fn lemma_name_shape(p: Partition) -> (shape: (nat, char))
    ensures
        shape.0 == p.spec_name().len(),
        shape.1 == p.spec_name()[0],
        shape == match p {
            Partition::System => (6nat, 's'),
            Partition::MessageIdToMessage => (21nat, 'm'),
            Partition::MessageIdToMetadata => (22nat, 'm'),
            Partition::MessageIdToMessageId => (24nat, 'm'),
            Partition::IndexToMessageId => (19nat, 'i'),
            Partition::OutputIdToCreatedOutput => (27nat, 'o'),
            Partition::OutputIdToConsumedOutput => (28nat, 'o'),
            Partition::OutputIdUnspent => (17nat, 'o'),
            Partition::Ed25519AddressToOutputId => (28nat, 'e'),
            Partition::LedgerIndex => (12nat, 'l'),
            Partition::MilestoneIndexToMilestone => (28nat, 'm'),
            Partition::SnapshotInfo => (13nat, 's'),
            Partition::SolidEntryPointToMilestoneIndex => (36nat, 's'),
            Partition::MilestoneIndexToOutputDiff => (30nat, 'm'),
            Partition::AddressToBalance => (18nat, 'a'),
            Partition::MilestoneIndexToUnconfirmedMessage => (38nat, 'm'),
            Partition::MilestoneIndexToReceipt => (26nat, 'm'),
            Partition::SpentToTreasuryOutput => (24nat, 's'),
        },
{
    reveal_strlit("system");
    reveal_strlit("message_id_to_message");
    reveal_strlit("message_id_to_metadata");
    reveal_strlit("message_id_to_message_id");
    reveal_strlit("index_to_message_id");
    reveal_strlit("output_id_to_created_output");
    reveal_strlit("output_id_to_consumed_output");
    reveal_strlit("output_id_unspent");
    reveal_strlit("ed25519_address_to_output_id");
    reveal_strlit("ledger_index");
    reveal_strlit("milestone_index_to_milestone");
    reveal_strlit("snapshot_info");
    reveal_strlit("solid_entry_point_to_milestone_index");
    reveal_strlit("milestone_index_to_output_diff");
    reveal_strlit("address_to_balance");
    reveal_strlit("milestone_index_to_unconfirmed_message");
    reveal_strlit("milestone_index_to_receipt");
    reveal_strlit("spent_to_treasury_output");
    (p.spec_name().len(), p.spec_name()[0])
}

/// No two partitions share a name.
pub proof fn lemma_names_distinct(a: Partition, b: Partition)
    requires
        a != b,
    ensures
        a.spec_name() != b.spec_name(),
{
    lemma_name_shape(a);
    lemma_name_shape(b);
}

} // verus!
