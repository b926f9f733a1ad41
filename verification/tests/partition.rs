use bee_storage_rocksdb::config::{
    CompactionStyle, CompressionType, EngineOption, EnvConfig, StorageConfig,
};
use bee_storage_rocksdb::partition::{
    column_families, ColumnFamily, Partition, CF_SYSTEM, PARTITION_COUNT,
};
use bee_storage_rocksdb::storage::Storage;

fn config(enable_statistics: bool) -> StorageConfig {
    StorageConfig {
        path: String::from("./storage/test"),
        create_if_missing: true,
        create_missing_column_families: false,
        enable_statistics,
        increase_parallelism: 4,
        optimize_for_point_lookup: 67_108_864,
        optimize_level_style_compaction: 1,
        optimize_universal_style_compaction: 2,
        set_advise_random_on_open: true,
        set_allow_concurrent_memtable_write: false,
        set_allow_mmap_reads: true,
        set_allow_mmap_writes: false,
        set_atomic_flush: true,
        set_bytes_per_sync: 3,
        set_compaction_readahead_size: 4,
        set_compaction_style: CompactionStyle::Fifo,
        set_max_write_buffer_number: 5,
        set_write_buffer_size: 6,
        set_db_write_buffer_size: 7,
        set_disable_auto_compactions: true,
        set_compression_type: CompressionType::Lz4,
        set_unordered_write: false,
        set_use_direct_io_for_flush_and_compaction: true,
        env: EnvConfig { set_background_threads: 8, set_high_priority_background_threads: 9 },
    }
}

#[test]
fn table_has_every_partition_once_in_order() {
    let families = column_families();
    assert_eq!(families.len(), PARTITION_COUNT);
    assert_eq!(families.len(), 18);
    for (i, family) in families.iter().enumerate() {
        assert_eq!(family.partition.index(), i);
        assert_eq!(Partition::at(i), Some(family.partition));
        assert_eq!(family.prefix_length, family.partition.prefix_length());
        assert_eq!(*family, family.partition.column_family());
    }
    assert_eq!(Partition::at(18), None);
    assert_eq!(Partition::at(usize::MAX), None);
    assert_eq!(families[0].partition, Partition::System);
}

#[test]
fn partition_names() {
    let expected = [
        "system",
        "message_id_to_message",
        "message_id_to_metadata",
        "message_id_to_message_id",
        "index_to_message_id",
        "output_id_to_created_output",
        "output_id_to_consumed_output",
        "output_id_unspent",
        "ed25519_address_to_output_id",
        "ledger_index",
        "milestone_index_to_milestone",
        "snapshot_info",
        "solid_entry_point_to_milestone_index",
        "milestone_index_to_output_diff",
        "address_to_balance",
        "milestone_index_to_unconfirmed_message",
        "milestone_index_to_receipt",
        "spent_to_treasury_output",
    ];
    for (i, name) in expected.iter().enumerate() {
        assert_eq!(Partition::at(i).unwrap().name(), *name);
    }
    assert_eq!(Partition::System.name(), CF_SYSTEM);
}

#[test]
fn partition_names_are_unique() {
    for i in 0..PARTITION_COUNT {
        for j in 0..PARTITION_COUNT {
            if i != j {
                assert_ne!(Partition::at(i).unwrap().name(), Partition::at(j).unwrap().name());
            }
        }
    }
}

#[test]
fn prefix_hints() {
    assert_eq!(Partition::MessageIdToMessageId.prefix_length(), Some(32));
    assert_eq!(Partition::IndexToMessageId.prefix_length(), Some(64));
    assert_eq!(Partition::Ed25519AddressToOutputId.prefix_length(), Some(32));
    assert_eq!(Partition::MilestoneIndexToUnconfirmedMessage.prefix_length(), Some(4));
    assert_eq!(Partition::MilestoneIndexToReceipt.prefix_length(), Some(4));
    assert_eq!(Partition::SpentToTreasuryOutput.prefix_length(), Some(1));
    let without = [
        Partition::System,
        Partition::MessageIdToMessage,
        Partition::MessageIdToMetadata,
        Partition::OutputIdToCreatedOutput,
        Partition::OutputIdToConsumedOutput,
        Partition::OutputIdUnspent,
        Partition::LedgerIndex,
        Partition::MilestoneIndexToMilestone,
        Partition::SnapshotInfo,
        Partition::SolidEntryPointToMilestoneIndex,
        Partition::MilestoneIndexToOutputDiff,
        Partition::AddressToBalance,
    ];
    for partition in without {
        assert_eq!(partition.prefix_length(), None);
    }
    assert_eq!(
        Partition::SpentToTreasuryOutput.column_family(),
        ColumnFamily { partition: Partition::SpentToTreasuryOutput, prefix_length: Some(1) }
    );
}

#[test]
fn engine_options_in_order() {
    let options = config(true).engine_options();
    let expected = vec![
        EngineOption::CreateIfMissing(true),
        EngineOption::CreateMissingColumnFamilies(false),
        EngineOption::EnableStatistics,
        EngineOption::IncreaseParallelism(4),
        EngineOption::OptimizeForPointLookup(67_108_864),
        EngineOption::OptimizeLevelStyleCompaction(1),
        EngineOption::OptimizeUniversalStyleCompaction(2),
        EngineOption::AdviseRandomOnOpen(true),
        EngineOption::AllowConcurrentMemtableWrite(false),
        EngineOption::AllowMmapReads(true),
        EngineOption::AllowMmapWrites(false),
        EngineOption::AtomicFlush(true),
        EngineOption::BytesPerSync(3),
        EngineOption::CompactionReadaheadSize(4),
        EngineOption::CompactionStyle(CompactionStyle::Fifo),
        EngineOption::MaxWriteBufferNumber(5),
        EngineOption::WriteBufferSize(6),
        EngineOption::DbWriteBufferSize(7),
        EngineOption::DisableAutoCompactions(true),
        EngineOption::CompressionType(CompressionType::Lz4),
        EngineOption::UnorderedWrite(false),
        EngineOption::UseDirectIoForFlushAndCompaction(true),
    ];
    assert_eq!(options, expected);
}

#[test]
fn statistics_are_only_ever_switched_on() {
    let options = config(false).engine_options();
    assert_eq!(options.len(), 21);
    assert!(!options.contains(&EngineOption::EnableStatistics));
    assert_eq!(options[2], EngineOption::IncreaseParallelism(4));
}

#[test]
fn open_plan_holds_path_options_env_and_table() {
    let plan = Storage::new(&config(true));
    assert_eq!(plan.path, "./storage/test");
    assert_eq!(plan.options, config(true).engine_options());
    assert_eq!(
        plan.env,
        EnvConfig { set_background_threads: 8, set_high_priority_background_threads: 9 }
    );
    assert_eq!(plan.column_families, column_families());
}
