use std::collections::HashMap;

use bee_storage_rocksdb::config::{CompactionStyle, CompressionType, EnvConfig, StorageConfig};
use bee_storage_rocksdb::engine::{Reply, Request};
use bee_storage_rocksdb::error::{EngineError, Error};
use bee_storage_rocksdb::health::StorageHealth;
use bee_storage_rocksdb::packable::Packable;
use bee_storage_rocksdb::partition::{column_families, Partition};
use bee_storage_rocksdb::storage::{
    ShutdownPhase, ShutdownStep, StartupPhase, StartupStep, Storage,
};
use bee_storage_rocksdb::system::{
    health_check, read_health, system_reply, version_check, System, STORAGE_HEALTH_KEY,
    STORAGE_VERSION, STORAGE_VERSION_KEY, SYSTEM_HEALTH_TAG, SYSTEM_VERSION_TAG,
};

type Records = HashMap<(Partition, Vec<u8>), Vec<u8>>;

/// An engine in memory, which counts its requests and can be told to fail
/// one of them.
struct Engine {
    records: Records,
    performed: Vec<String>,
    writes: usize,
    fail_at: Option<usize>,
}

impl Engine {
    fn with(records: Records) -> Engine {
        Engine { records, performed: Vec::new(), writes: 0, fail_at: None }
    }

    fn perform(&mut self, request: &Request) -> Reply {
        let at = self.performed.len();
        self.performed.push(format!("{:?}", request));
        if self.fail_at == Some(at) {
            return Err(EngineError { message: format!("failure at {}", at) });
        }
        match request {
            Request::Open(_) | Request::Flush | Request::FlushPartition(_) => Ok(None),
            Request::Get { partition, key } => {
                Ok(self.records.get(&(*partition, key.clone())).cloned())
            }
            Request::Put { partition, key, value } => {
                self.writes += 1;
                self.records.insert((*partition, key.clone()), value.clone());
                Ok(None)
            }
            Request::Truncate(partition) => {
                self.writes += 1;
                self.records.retain(|entry, _| entry.0 != *partition);
                Ok(None)
            }
        }
    }
}

fn config() -> StorageConfig {
    StorageConfig {
        path: String::from("./storage/test"),
        create_if_missing: true,
        create_missing_column_families: true,
        enable_statistics: false,
        increase_parallelism: 2,
        optimize_for_point_lookup: 64,
        optimize_level_style_compaction: 0,
        optimize_universal_style_compaction: 0,
        set_advise_random_on_open: false,
        set_allow_concurrent_memtable_write: true,
        set_allow_mmap_reads: false,
        set_allow_mmap_writes: false,
        set_atomic_flush: false,
        set_bytes_per_sync: 0,
        set_compaction_readahead_size: 0,
        set_compaction_style: CompactionStyle::Level,
        set_max_write_buffer_number: 2,
        set_write_buffer_size: 1024,
        set_db_write_buffer_size: 0,
        set_disable_auto_compactions: false,
        set_compression_type: CompressionType::NoCompression,
        set_unordered_write: false,
        set_use_direct_io_for_flush_and_compaction: false,
        env: EnvConfig { set_background_threads: 1, set_high_priority_background_threads: 1 },
    }
}

fn system_key(key: u8) -> (Partition, Vec<u8>) {
    (Partition::System, vec![key])
}

fn start(engine: &mut Engine) -> Result<Storage, Error> {
    let (mut startup, mut request) = Storage::start(config());
    loop {
        let reply = engine.perform(&request);
        match startup.step(reply) {
            StartupStep::Continue(next, next_request) => {
                startup = next;
                request = next_request;
            }
            StartupStep::Started(storage) => return Ok(storage),
            StartupStep::Failed(error) => return Err(error),
        }
    }
}

fn shutdown(engine: &mut Engine, storage: Storage) -> Result<(), Error> {
    let (mut shutdown, mut request) = storage.shutdown();
    loop {
        let reply = engine.perform(&request);
        match shutdown.step(reply) {
            ShutdownStep::Continue(next, next_request) => {
                shutdown = next;
                request = next_request;
            }
            ShutdownStep::Closed => return Ok(()),
            ShutdownStep::Failed(error) => return Err(error),
        }
    }
}

fn get_health(engine: &mut Engine, storage: &Storage) -> Result<Option<StorageHealth>, Error> {
    let reply = engine.perform(&storage.get_health());
    Storage::health_reply(reply)
}

#[test]
fn start_begins_by_opening_with_the_whole_table() {
    let (startup, request) = Storage::start(config());
    assert_eq!(startup.phase(), StartupPhase::Opening);
    assert_eq!(*startup.config(), config());
    match request {
        Request::Open(plan) => {
            assert_eq!(plan.path, "./storage/test");
            assert_eq!(plan.options, config().engine_options());
            assert_eq!(plan.env, config().env);
            assert_eq!(plan.column_families, column_families());
            assert_eq!(plan.column_families.len(), 18);
        }
        other => panic!("unexpected request {:?}", other),
    }
}

#[test]
fn fresh_store_gets_version_and_idle() {
    let mut engine = Engine::with(Records::new());
    let storage = start(&mut engine).unwrap();
    assert_eq!(*storage.config(), config());
    assert_eq!(engine.records.len(), 2);
    assert_eq!(
        engine.records.get(&system_key(STORAGE_VERSION_KEY)),
        Some(&System::Version(STORAGE_VERSION).pack())
    );
    assert_eq!(
        engine.records.get(&system_key(STORAGE_HEALTH_KEY)),
        Some(&System::Health(StorageHealth::Idle).pack())
    );
    assert_eq!(engine.records.get(&system_key(STORAGE_HEALTH_KEY)), Some(&vec![1, 1]));
    assert_eq!(engine.performed.len(), 7);
    assert_eq!(engine.writes, 2);
}

#[test]
fn start_walks_through_its_phases_in_order() {
    let (startup, request) = Storage::start(config());
    assert!(matches!(request, Request::Open(_)));

    let (startup, request) = match startup.step(Ok(None)) {
        StartupStep::Continue(next, request) => (next, request),
        other => panic!("unexpected step {:?}", other),
    };
    assert_eq!(startup.phase(), StartupPhase::Flushing);
    assert_eq!(request, Request::Flush);

    let (startup, request) = match startup.step(Ok(None)) {
        StartupStep::Continue(next, request) => (next, request),
        other => panic!("unexpected step {:?}", other),
    };
    assert_eq!(startup.phase(), StartupPhase::FlushingSystem);
    assert_eq!(request, Request::FlushPartition(Partition::System));

    let (startup, request) = match startup.step(Ok(None)) {
        StartupStep::Continue(next, request) => (next, request),
        other => panic!("unexpected step {:?}", other),
    };
    assert_eq!(startup.phase(), StartupPhase::VersionCheck);
    assert_eq!(request, Request::Get { partition: Partition::System, key: vec![0] });

    let (startup, request) = match startup.step(Ok(None)) {
        StartupStep::Continue(next, request) => (next, request),
        other => panic!("unexpected step {:?}", other),
    };
    assert_eq!(startup.phase(), StartupPhase::VersionWrite);
    assert_eq!(
        request,
        Request::Put {
            partition: Partition::System,
            key: vec![0],
            value: System::Version(STORAGE_VERSION).pack(),
        }
    );

    let (startup, request) = match startup.step(Ok(None)) {
        StartupStep::Continue(next, request) => (next, request),
        other => panic!("unexpected step {:?}", other),
    };
    assert_eq!(startup.phase(), StartupPhase::HealthCheck);
    assert_eq!(request, Request::Get { partition: Partition::System, key: vec![1] });

    let (startup, request) = match startup.step(Ok(Some(vec![1, 0]))) {
        StartupStep::Continue(next, request) => (next, request),
        other => panic!("unexpected step {:?}", other),
    };
    assert_eq!(startup.phase(), StartupPhase::HealthWrite);
    assert_eq!(
        request,
        Request::Put { partition: Partition::System, key: vec![1], value: vec![1, 1] }
    );

    assert!(matches!(startup.step(Ok(None)), StartupStep::Started(_)));
}

#[test]
fn current_version_is_not_written_again() {
    let mut records = Records::new();
    records.insert(system_key(STORAGE_VERSION_KEY), System::Version(STORAGE_VERSION).pack());
    records.insert(system_key(STORAGE_HEALTH_KEY), System::Health(StorageHealth::Healthy).pack());
    let mut engine = Engine::with(records);
    assert!(start(&mut engine).is_ok());
    assert_eq!(engine.writes, 1);
    assert_eq!(engine.performed.len(), 6);
    assert_eq!(engine.records.get(&system_key(STORAGE_HEALTH_KEY)), Some(&vec![1, 1]));
}

#[test]
fn version_mismatch_is_refused_and_nothing_is_written() {
    let mut records = Records::new();
    records.insert(system_key(STORAGE_VERSION_KEY), System::Version(STORAGE_VERSION + 1).pack());
    records.insert(system_key(STORAGE_HEALTH_KEY), System::Health(StorageHealth::Healthy).pack());
    let before = records.clone();
    let mut engine = Engine::with(records);
    assert_eq!(
        start(&mut engine),
        Err(Error::VersionMismatch(STORAGE_VERSION + 1, STORAGE_VERSION))
    );
    assert_eq!(engine.writes, 0);
    assert_eq!(engine.records, before);
    assert_eq!(engine.performed.len(), 4);
}

#[test]
fn idle_store_is_refused() {
    let mut records = Records::new();
    records.insert(system_key(STORAGE_VERSION_KEY), System::Version(STORAGE_VERSION).pack());
    records.insert(system_key(STORAGE_HEALTH_KEY), System::Health(StorageHealth::Idle).pack());
    let before = records.clone();
    let mut engine = Engine::with(records);
    assert_eq!(start(&mut engine), Err(Error::UnhealthyStorage(StorageHealth::Idle)));
    assert_eq!(engine.writes, 0);
    assert_eq!(engine.records, before);
}

#[test]
fn crash_is_found_at_the_next_start() {
    let mut engine = Engine::with(Records::new());
    let storage = start(&mut engine).unwrap();
    drop(storage);
    let mut engine = Engine::with(engine.records);
    assert_eq!(start(&mut engine), Err(Error::UnhealthyStorage(StorageHealth::Idle)));
}

#[test]
fn record_of_the_other_kind_is_corruption() {
    let mut records = Records::new();
    records.insert(system_key(STORAGE_VERSION_KEY), System::Health(StorageHealth::Healthy).pack());
    let mut engine = Engine::with(records);
    assert_eq!(start(&mut engine), Err(Error::CorruptSystemRecord(STORAGE_VERSION_KEY)));
    assert_eq!(engine.writes, 0);

    let mut records = Records::new();
    records.insert(system_key(STORAGE_VERSION_KEY), System::Version(STORAGE_VERSION).pack());
    records.insert(system_key(STORAGE_HEALTH_KEY), System::Version(STORAGE_VERSION).pack());
    let mut engine = Engine::with(records);
    assert_eq!(start(&mut engine), Err(Error::CorruptSystemRecord(STORAGE_HEALTH_KEY)));
    assert_eq!(engine.writes, 0);
}

#[test]
fn bytes_with_another_tag_under_a_system_key_are_corruption() {
    for bytes in [vec![], vec![9, 9, 9], vec![2], vec![1, 7], vec![255, 0, 0, 0, 0, 0, 0, 0, 0]] {
        let mut records = Records::new();
        records.insert(system_key(STORAGE_VERSION_KEY), bytes);
        let mut engine = Engine::with(records);
        assert_eq!(start(&mut engine), Err(Error::CorruptSystemRecord(STORAGE_VERSION_KEY)));
        assert_eq!(engine.writes, 0);
    }
    for bytes in [vec![], vec![9, 9, 9], vec![2, 0], vec![0, 7], vec![0]] {
        let mut records = Records::new();
        records.insert(system_key(STORAGE_VERSION_KEY), System::Version(STORAGE_VERSION).pack());
        records.insert(system_key(STORAGE_HEALTH_KEY), bytes);
        let mut engine = Engine::with(records);
        assert_eq!(start(&mut engine), Err(Error::CorruptSystemRecord(STORAGE_HEALTH_KEY)));
        assert_eq!(engine.writes, 0);
    }
}

#[test]
fn system_record_with_its_tag_and_a_broken_payload_is_a_decode_error() {
    for bytes in [vec![0], vec![0, 1, 2], vec![0, 1, 2, 3, 4, 5, 6, 7, 8, 9]] {
        let mut records = Records::new();
        records.insert(system_key(STORAGE_VERSION_KEY), bytes);
        let mut engine = Engine::with(records);
        assert_eq!(start(&mut engine), Err(Error::Decode));
        assert_eq!(engine.writes, 0);
    }
    for bytes in [vec![1], vec![1, 7], vec![1, 0, 0]] {
        let mut records = Records::new();
        records.insert(system_key(STORAGE_HEALTH_KEY), bytes);
        let mut engine = Engine::with(records);
        assert_eq!(start(&mut engine), Err(Error::Decode));
        assert_eq!(engine.writes, 1);
    }
}

#[test]
fn system_reply_cases() {
    assert_eq!(system_reply(STORAGE_VERSION_KEY, SYSTEM_VERSION_TAG, Ok(None)), Ok(None));
    assert_eq!(
        system_reply(STORAGE_VERSION_KEY, SYSTEM_VERSION_TAG, Ok(Some(System::Version(5).pack()))),
        Ok(Some(System::Version(5)))
    );
    assert_eq!(
        system_reply(STORAGE_HEALTH_KEY, SYSTEM_HEALTH_TAG, Ok(Some(vec![1, 1]))),
        Ok(Some(System::Health(StorageHealth::Idle)))
    );
    assert_eq!(
        system_reply(STORAGE_VERSION_KEY, SYSTEM_VERSION_TAG, Ok(Some(vec![1, 1]))),
        Err(Error::CorruptSystemRecord(STORAGE_VERSION_KEY))
    );
    assert_eq!(
        system_reply(STORAGE_HEALTH_KEY, SYSTEM_HEALTH_TAG, Ok(Some(vec![3, 1]))),
        Err(Error::CorruptSystemRecord(STORAGE_HEALTH_KEY))
    );
    assert_eq!(
        system_reply(STORAGE_HEALTH_KEY, SYSTEM_HEALTH_TAG, Ok(Some(vec![]))),
        Err(Error::CorruptSystemRecord(STORAGE_HEALTH_KEY))
    );
    assert_eq!(
        system_reply(STORAGE_HEALTH_KEY, SYSTEM_HEALTH_TAG, Ok(Some(vec![1, 9]))),
        Err(Error::Decode)
    );
    assert_eq!(
        system_reply(
            STORAGE_HEALTH_KEY,
            SYSTEM_HEALTH_TAG,
            Err(EngineError { message: String::from("io") })
        ),
        Err(Error::Engine(EngineError { message: String::from("io") }))
    );
}

#[test]
fn engine_failure_ends_the_start_in_every_phase() {
    for at in 0..7 {
        let mut engine = Engine::with(Records::new());
        engine.fail_at = Some(at);
        let error = EngineError { message: format!("failure at {}", at) };
        assert_eq!(start(&mut engine), Err(Error::Engine(error)));
        assert_eq!(engine.performed.len(), at + 1);
    }
}

#[test]
fn shutdown_marks_healthy_then_flushes() {
    let mut engine = Engine::with(Records::new());
    let storage = start(&mut engine).unwrap();
    let (shutting, request) = storage.shutdown();
    assert_eq!(shutting.phase(), ShutdownPhase::MarkingHealthy);
    assert_eq!(
        request,
        Request::Put { partition: Partition::System, key: vec![1], value: vec![1, 0] }
    );
    let (shutting, request) = match shutting.step(Ok(None)) {
        ShutdownStep::Continue(next, request) => (next, request),
        other => panic!("unexpected step {:?}", other),
    };
    assert_eq!(shutting.phase(), ShutdownPhase::Flushing);
    assert_eq!(request, Request::Flush);
    assert_eq!(shutting.step(Ok(None)), ShutdownStep::Closed);
}

#[test]
fn engine_failure_ends_the_shutdown() {
    for at in 0..2 {
        let mut engine = Engine::with(Records::new());
        let storage = start(&mut engine).unwrap();
        let mut engine = Engine::with(engine.records);
        engine.fail_at = Some(at);
        let error = EngineError { message: format!("failure at {}", at) };
        assert_eq!(shutdown(&mut engine, storage), Err(Error::Engine(error)));
    }
}

#[test]
fn full_cycle() {
    let mut engine = Engine::with(Records::new());
    let storage = start(&mut engine).unwrap();
    assert_eq!(get_health(&mut engine, &storage), Ok(Some(StorageHealth::Idle)));

    let reply = engine.perform(&storage.set_health(StorageHealth::Healthy));
    assert_eq!(reply, Ok(None));
    assert_eq!(get_health(&mut engine, &storage), Ok(Some(StorageHealth::Healthy)));
    let reply = engine.perform(&storage.set_health(StorageHealth::Idle));
    assert_eq!(reply, Ok(None));
    assert_eq!(get_health(&mut engine, &storage), Ok(Some(StorageHealth::Idle)));

    assert_eq!(shutdown(&mut engine, storage), Ok(()));
    assert_eq!(
        engine.records.get(&system_key(STORAGE_HEALTH_KEY)),
        Some(&System::Health(StorageHealth::Healthy).pack())
    );

    let storage = start(&mut engine).unwrap();
    assert_eq!(get_health(&mut engine, &storage), Ok(Some(StorageHealth::Idle)));
    assert_eq!(
        engine.records.get(&system_key(STORAGE_VERSION_KEY)),
        Some(&System::Version(STORAGE_VERSION).pack())
    );
}

#[test]
fn health_reply_cases() {
    assert_eq!(Storage::health_reply(Ok(None)), Ok(None));
    assert_eq!(Storage::health_reply(Ok(Some(vec![1, 0]))), Ok(Some(StorageHealth::Healthy)));
    assert_eq!(Storage::health_reply(Ok(Some(vec![1, 1]))), Ok(Some(StorageHealth::Idle)));
    assert_eq!(
        Storage::health_reply(Ok(Some(System::Version(3).pack()))),
        Err(Error::CorruptSystemRecord(STORAGE_HEALTH_KEY))
    );
    assert_eq!(Storage::health_reply(Ok(Some(vec![1, 2]))), Err(Error::Decode));
    assert_eq!(Storage::health_reply(Ok(Some(vec![1]))), Err(Error::Decode));
    assert_eq!(
        Storage::health_reply(Ok(Some(vec![]))),
        Err(Error::CorruptSystemRecord(STORAGE_HEALTH_KEY))
    );
    assert_eq!(
        Storage::health_reply(Ok(Some(vec![2, 0]))),
        Err(Error::CorruptSystemRecord(STORAGE_HEALTH_KEY))
    );
    assert_eq!(
        Storage::health_reply(Ok(Some(vec![0, 1]))),
        Err(Error::CorruptSystemRecord(STORAGE_HEALTH_KEY))
    );
    let error = EngineError { message: String::from("io") };
    assert_eq!(
        Storage::health_reply(Err(EngineError { message: String::from("io") })),
        Err(Error::Engine(error))
    );
}

#[test]
fn system_decisions() {
    assert_eq!(version_check(None), Ok(Some(System::Version(STORAGE_VERSION))));
    assert_eq!(version_check(Some(System::Version(STORAGE_VERSION))), Ok(None));
    assert_eq!(
        version_check(Some(System::Version(STORAGE_VERSION + 7))),
        Err(Error::VersionMismatch(STORAGE_VERSION + 7, STORAGE_VERSION))
    );
    assert_eq!(
        version_check(Some(System::Health(StorageHealth::Healthy))),
        Err(Error::CorruptSystemRecord(STORAGE_VERSION_KEY))
    );
    assert_eq!(read_health(None), Ok(None));
    assert_eq!(
        read_health(Some(System::Health(StorageHealth::Idle))),
        Ok(Some(StorageHealth::Idle))
    );
    assert_eq!(
        read_health(Some(System::Version(STORAGE_VERSION))),
        Err(Error::CorruptSystemRecord(STORAGE_HEALTH_KEY))
    );
    assert_eq!(health_check(None), Ok(()));
    assert_eq!(health_check(Some(StorageHealth::Healthy)), Ok(()));
    assert_eq!(
        health_check(Some(StorageHealth::Idle)),
        Err(Error::UnhealthyStorage(StorageHealth::Idle))
    );
}

#[test]
fn size_is_the_sum_of_the_file_sizes() {
    let mut engine = Engine::with(Records::new());
    let storage = start(&mut engine).unwrap();
    assert_eq!(storage.size(Ok(vec![])), Ok(Some(0)));
    assert_eq!(storage.size(Ok(vec![4096])), Ok(Some(4096)));
    assert_eq!(storage.size(Ok(vec![1, 2, 3, 1000])), Ok(Some(1006)));
    assert_eq!(storage.size(Ok(vec![usize::MAX - 1, 1])), Ok(Some(usize::MAX)));
    assert_eq!(storage.size(Ok(vec![usize::MAX, 1])), Ok(Some(usize::MAX)));
    assert_eq!(storage.size(Ok(vec![1, usize::MAX, 0])), Ok(Some(usize::MAX)));
    assert_eq!(storage.size(Ok(vec![usize::MAX, usize::MAX])), Ok(Some(usize::MAX)));
    assert_eq!(storage.size(Ok(vec![usize::MAX])), Ok(Some(usize::MAX)));
    assert_eq!(storage.size(Ok(vec![0, 0, 0])), Ok(Some(0)));
    let error = EngineError { message: String::from("Could not get live files") };
    assert_eq!(
        storage.size(Err(EngineError { message: String::from("Could not get live files") })),
        Err(Error::Engine(error))
    );
}
