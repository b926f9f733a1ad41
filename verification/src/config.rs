//! The tuning of the engine instance. It is read once, when the store is
//! opened, and does not change afterwards.

use vstd::prelude::*;

verus! {

/// How the engine compacts its files.
#[derive(Clone, Copy, Debug, PartialEq, Eq, Structural)]
pub enum CompactionStyle {
    Level,
    Universal,
    Fifo,
}

/// How the engine compresses its blocks.
#[derive(Clone, Copy, Debug, PartialEq, Eq, Structural)]
pub enum CompressionType {
    NoCompression,
    Snappy,
    Zlib,
    Bz2,
    Lz4,
    Lz4hc,
    Zstd,
}

/// The thread counts of the engine's environment.
#[derive(Clone, Copy, Debug, PartialEq, Eq, Structural)]
pub struct EnvConfig {
    pub set_background_threads: i32,
    pub set_high_priority_background_threads: i32,
}

/// The configuration of a store.
#[derive(Debug, PartialEq, Eq)]
pub struct StorageConfig {
    /// The directory of the store.
    pub path: String,
    /// Whether a store that does not exist yet may be created.
    pub create_if_missing: bool,
    /// Whether partitions that an existing store lacks may be added to it.
    pub create_missing_column_families: bool,
    /// Whether the engine collects its internal metrics.
    pub enable_statistics: bool,
    /// The number of background threads of the engine.
    pub increase_parallelism: i32,
    /// The block cache size, in MiB, of the point lookup preset.
    pub optimize_for_point_lookup: u64,
    /// The memtable budget of the level compaction preset.
    pub optimize_level_style_compaction: usize,
    /// The memtable budget of the universal compaction preset.
    pub optimize_universal_style_compaction: usize,
    pub set_advise_random_on_open: bool,
    pub set_allow_concurrent_memtable_write: bool,
    pub set_allow_mmap_reads: bool,
    pub set_allow_mmap_writes: bool,
    pub set_atomic_flush: bool,
    pub set_bytes_per_sync: u64,
    pub set_compaction_readahead_size: usize,
    pub set_compaction_style: CompactionStyle,
    pub set_max_write_buffer_number: i32,
    pub set_write_buffer_size: usize,
    pub set_db_write_buffer_size: usize,
    pub set_disable_auto_compactions: bool,
    pub set_compression_type: CompressionType,
    /// Trades the order in which writes become durable for throughput.
    pub set_unordered_write: bool,
    /// Lets flushes and compactions bypass the page cache.
    pub set_use_direct_io_for_flush_and_compaction: bool,
    pub env: EnvConfig,
}

/// One setting of the engine's options.
#[derive(Clone, Copy, Debug, PartialEq, Eq, Structural)]
pub enum EngineOption {
    CreateIfMissing(bool),
    CreateMissingColumnFamilies(bool),
    EnableStatistics,
    IncreaseParallelism(i32),
    OptimizeForPointLookup(u64),
    OptimizeLevelStyleCompaction(usize),
    OptimizeUniversalStyleCompaction(usize),
    AdviseRandomOnOpen(bool),
    AllowConcurrentMemtableWrite(bool),
    AllowMmapReads(bool),
    AllowMmapWrites(bool),
    AtomicFlush(bool),
    BytesPerSync(u64),
    CompactionReadaheadSize(usize),
    CompactionStyle(CompactionStyle),
    MaxWriteBufferNumber(i32),
    WriteBufferSize(usize),
    DbWriteBufferSize(usize),
    DisableAutoCompactions(bool),
    CompressionType(CompressionType),
    UnorderedWrite(bool),
    UseDirectIoForFlushAndCompaction(bool),
}

impl StorageConfig {
    /// The settings that the engine's options receive, in the order in which
    /// they are applied. Statistics are a switch that is only ever turned on.
    pub open spec fn spec_engine_options(&self) -> Seq<EngineOption> {
        seq![
            EngineOption::CreateIfMissing(self.create_if_missing),
            EngineOption::CreateMissingColumnFamilies(self.create_missing_column_families),
        ] + (if self.enable_statistics {
            seq![EngineOption::EnableStatistics]
        } else {
            Seq::empty()
        }) + seq![
            EngineOption::IncreaseParallelism(self.increase_parallelism),
            EngineOption::OptimizeForPointLookup(self.optimize_for_point_lookup),
            EngineOption::OptimizeLevelStyleCompaction(self.optimize_level_style_compaction),
            EngineOption::OptimizeUniversalStyleCompaction(
                self.optimize_universal_style_compaction,
            ),
            EngineOption::AdviseRandomOnOpen(self.set_advise_random_on_open),
            EngineOption::AllowConcurrentMemtableWrite(self.set_allow_concurrent_memtable_write),
            EngineOption::AllowMmapReads(self.set_allow_mmap_reads),
            EngineOption::AllowMmapWrites(self.set_allow_mmap_writes),
            EngineOption::AtomicFlush(self.set_atomic_flush),
            EngineOption::BytesPerSync(self.set_bytes_per_sync),
            EngineOption::CompactionReadaheadSize(self.set_compaction_readahead_size),
            EngineOption::CompactionStyle(self.set_compaction_style),
            EngineOption::MaxWriteBufferNumber(self.set_max_write_buffer_number),
            EngineOption::WriteBufferSize(self.set_write_buffer_size),
            EngineOption::DbWriteBufferSize(self.set_db_write_buffer_size),
            EngineOption::DisableAutoCompactions(self.set_disable_auto_compactions),
            EngineOption::CompressionType(self.set_compression_type),
            EngineOption::UnorderedWrite(self.set_unordered_write),
            EngineOption::UseDirectIoForFlushAndCompaction(
                self.set_use_direct_io_for_flush_and_compaction,
            ),
        ]
    }

    /// The settings that the engine's options receive, in the order in which
    /// they are applied.
    pub fn engine_options(&self) -> (options: Vec<EngineOption>)
        ensures
            options@ == self.spec_engine_options(),
    {
        let mut options: Vec<EngineOption> = Vec::new();
        options.push(EngineOption::CreateIfMissing(self.create_if_missing));
        options.push(EngineOption::CreateMissingColumnFamilies(self.create_missing_column_families));
        if self.enable_statistics {
            options.push(EngineOption::EnableStatistics);
        }
        options.push(EngineOption::IncreaseParallelism(self.increase_parallelism));
        options.push(EngineOption::OptimizeForPointLookup(self.optimize_for_point_lookup));
        options.push(
            EngineOption::OptimizeLevelStyleCompaction(self.optimize_level_style_compaction),
        );
        options.push(
            EngineOption::OptimizeUniversalStyleCompaction(
                self.optimize_universal_style_compaction,
            ),
        );
        options.push(EngineOption::AdviseRandomOnOpen(self.set_advise_random_on_open));
        options.push(
            EngineOption::AllowConcurrentMemtableWrite(self.set_allow_concurrent_memtable_write),
        );
        options.push(EngineOption::AllowMmapReads(self.set_allow_mmap_reads));
        options.push(EngineOption::AllowMmapWrites(self.set_allow_mmap_writes));
        options.push(EngineOption::AtomicFlush(self.set_atomic_flush));
        options.push(EngineOption::BytesPerSync(self.set_bytes_per_sync));
        options.push(EngineOption::CompactionReadaheadSize(self.set_compaction_readahead_size));
        options.push(EngineOption::CompactionStyle(self.set_compaction_style));
        options.push(EngineOption::MaxWriteBufferNumber(self.set_max_write_buffer_number));
        options.push(EngineOption::WriteBufferSize(self.set_write_buffer_size));
        options.push(EngineOption::DbWriteBufferSize(self.set_db_write_buffer_size));
        options.push(EngineOption::DisableAutoCompactions(self.set_disable_auto_compactions));
        options.push(EngineOption::CompressionType(self.set_compression_type));
        options.push(EngineOption::UnorderedWrite(self.set_unordered_write));
        options.push(
            EngineOption::UseDirectIoForFlushAndCompaction(
                self.set_use_direct_io_for_flush_and_compaction,
            ),
        );
        assert(options@ =~= self.spec_engine_options());
        options
    }
}

} // verus!
