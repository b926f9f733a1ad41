//! Whole starts and shutdowns, run against an engine that never fails, and
//! what holds of them.

use vstd::prelude::*;
use crate::config::StorageConfig;
use crate::engine::{records_after, respond, Records, ReplyView, RequestView};
use crate::error::{EngineError, Error};
use crate::health::StorageHealth;
use crate::packable::{lemma_decoded_pack, lemma_decoded_some, Packable};
use crate::partition::{lemma_index_round_trip, Partition};
use crate::storage::{
    health_request, set_health_request, shutdown_action, spec_health_reply, spec_open_plan,
    startup_action, ShutdownAction, ShutdownPhase, StartupAction, StartupPhase,
};
use crate::system::{
    lemma_system_pack_shape, System, STORAGE_HEALTH_KEY, STORAGE_VERSION, STORAGE_VERSION_KEY,
    SYSTEM_HEALTH_TAG, SYSTEM_VERSION_TAG,
};

verus! {

/// How many requests a start in a phase may still make.
pub open spec fn startup_remaining(phase: StartupPhase) -> nat {
    match phase {
        StartupPhase::Opening => 6,
        StartupPhase::Flushing => 5,
        StartupPhase::FlushingSystem => 4,
        StartupPhase::VersionCheck => 3,
        StartupPhase::VersionWrite => 2,
        StartupPhase::HealthCheck => 1,
        StartupPhase::HealthWrite => 0,
    }
}

/// How many requests a shutdown in a phase may still make.
pub open spec fn shutdown_remaining(phase: ShutdownPhase) -> nat {
    match phase {
        ShutdownPhase::MarkingHealthy => 1,
        ShutdownPhase::Flushing => 0,
    }
}

/// The rest of a start whose pending request the engine performs on the
/// given entries: how the start ends, and the entries it leaves.
pub open spec fn run_startup(phase: StartupPhase, request: RequestView, records: Records) -> (
    Result<(), Error>,
    Records,
)
    decreases startup_remaining(phase),
{
    let after = records_after(records, request);
    match startup_action(phase, respond(records, request)) {
        StartupAction::Continue(next, next_request) => run_startup(next, next_request, after),
        StartupAction::Started => (Ok(()), after),
        StartupAction::Failed(error) => (Err(error), after),
    }
}

/// The rest of a shutdown whose pending request the engine performs on the
/// given entries: how the shutdown ends, and the entries it leaves.
pub open spec fn run_shutdown(phase: ShutdownPhase, request: RequestView, records: Records) -> (
    Result<(), Error>,
    Records,
)
    decreases shutdown_remaining(phase),
{
    let after = records_after(records, request);
    match shutdown_action(phase, respond(records, request)) {
        ShutdownAction::Continue(next, next_request) => run_shutdown(next, next_request, after),
        ShutdownAction::Closed => (Ok(()), after),
        ShutdownAction::Failed(error) => (Err(error), after),
    }
}

/// A whole start of a store with the given entries.
pub open spec fn start_run(config: StorageConfig, records: Records) -> (Result<(), Error>, Records) {
    run_startup(StartupPhase::Opening, RequestView::Open(spec_open_plan(config)), records)
}

/// A whole shutdown of a store with the given entries.
pub open spec fn shutdown_run(records: Records) -> (Result<(), Error>, Records) {
    run_shutdown(
        ShutdownPhase::MarkingHealthy,
        set_health_request(StorageHealth::Healthy),
        records,
    )
}

/// The place of a system record among the entries.
pub open spec fn system_entry(key: u8) -> (Partition, Seq<u8>) {
    (Partition::System, key.spec_pack())
}

/// The entries hold the given record under the given system key.
pub open spec fn holds_record(records: Records, key: u8, record: System) -> bool {
    records.dom().contains(system_entry(key)) && records[system_entry(key)] == record.spec_pack()
}

/// In every phase a start goes on to a phase with fewer requests left: the
/// start ends after at most seven requests.
pub proof fn lemma_startup_progress(phase: StartupPhase, reply: ReplyView)
    ensures
        startup_action(phase, reply) matches StartupAction::Continue(next, _) ==> startup_remaining(
            next,
        ) < startup_remaining(phase),
{
}

/// A failure of the engine ends a start and a shutdown in whatever phase
/// they are, with the engine's error as it came: no store is given out that
/// was not opened and checked to the end.
pub proof fn lemma_engine_failure_ends_the_run(
    starting: StartupPhase,
    closing: ShutdownPhase,
    error: EngineError,
)
    ensures
        startup_action(starting, Err(error)) == StartupAction::Failed(Error::Engine(error)),
        shutdown_action(closing, Err(error)) == ShutdownAction::Failed(Error::Engine(error)),
{
}

/// A shutdown ends after at most two requests.
pub proof fn lemma_shutdown_progress(phase: ShutdownPhase, reply: ReplyView)
    ensures
        shutdown_action(phase, reply) matches ShutdownAction::Continue(next, _)
            ==> shutdown_remaining(next) < shutdown_remaining(phase),
{
}

/// The request that opens a store names every partition of the table, each
/// with its own prefix hint.
pub proof fn lemma_open_plan_declares_every_partition(config: StorageConfig, partition: Partition)
    ensures
        spec_open_plan(config).column_families.len() == 18,
        spec_open_plan(config).column_families[partition.spec_index()]
            == partition.spec_column_family(),
{
    lemma_index_round_trip(partition);
}

/// The start of a store that holds no system record succeeds. It writes the
/// current version and the flag `Idle`, and nothing else.
pub proof fn lemma_start_fresh(config: StorageConfig, records: Records)
    requires
        !records.dom().contains(system_entry(STORAGE_VERSION_KEY)),
        !records.dom().contains(system_entry(STORAGE_HEALTH_KEY)),
    ensures
        start_run(config, records) == (
            Ok::<(), Error>(()),
            records.insert(
                system_entry(STORAGE_VERSION_KEY),
                System::Version(STORAGE_VERSION).spec_pack(),
            ).insert(
                system_entry(STORAGE_HEALTH_KEY),
                System::Health(StorageHealth::Idle).spec_pack(),
            ),
        ),
{
    lemma_keys_differ();
    reveal_with_fuel(run_startup, 8);
}

/// The start of a store whose stored version is not the current one fails
/// with both versions, and writes nothing: the entries are as they were.
pub proof fn lemma_start_version_mismatch(config: StorageConfig, records: Records, version: u64)
    requires
        holds_record(records, STORAGE_VERSION_KEY, System::Version(version)),
        version != STORAGE_VERSION,
    ensures
        start_run(config, records) == (
            Err::<(), Error>(Error::VersionMismatch(version, STORAGE_VERSION)),
            records,
        ),
{
    lemma_decoded_pack::<System>(System::Version(version));
    reveal_with_fuel(run_startup, 8);
}

/// The start of a store whose stored flag is `Idle` fails: the last run did
/// not close the store. The flag stays as it is. (The version is absent or
/// current here; a first run's version record is the one thing written.)
pub proof fn lemma_start_after_crash(config: StorageConfig, records: Records)
    requires
        holds_record(records, STORAGE_HEALTH_KEY, System::Health(StorageHealth::Idle)),
        !records.dom().contains(system_entry(STORAGE_VERSION_KEY)) || holds_record(
            records,
            STORAGE_VERSION_KEY,
            System::Version(STORAGE_VERSION),
        ),
    ensures
        start_run(config, records).0 == Err::<(), Error>(
            Error::UnhealthyStorage(StorageHealth::Idle),
        ),
        holds_record(
            start_run(config, records).1,
            STORAGE_HEALTH_KEY,
            System::Health(StorageHealth::Idle),
        ),
        start_run(config, records).1 == (if records.dom().contains(
            system_entry(STORAGE_VERSION_KEY),
        ) {
            records
        } else {
            records.insert(
                system_entry(STORAGE_VERSION_KEY),
                System::Version(STORAGE_VERSION).spec_pack(),
            )
        }),
{
    lemma_keys_differ();
    lemma_decoded_pack::<System>(System::Version(STORAGE_VERSION));
    lemma_decoded_pack::<System>(System::Health(StorageHealth::Idle));
    reveal_with_fuel(run_startup, 8);
}

/// The entries let a start through: the version record is absent or holds
/// the current version, and the health record is absent or holds `Healthy`.
pub open spec fn may_start(records: Records) -> bool {
    &&& !records.dom().contains(system_entry(STORAGE_VERSION_KEY)) || holds_record(
        records,
        STORAGE_VERSION_KEY,
        System::Version(STORAGE_VERSION),
    )
    &&& !records.dom().contains(system_entry(STORAGE_HEALTH_KEY)) || holds_record(
        records,
        STORAGE_HEALTH_KEY,
        System::Health(StorageHealth::Healthy),
    )
}

/// A start succeeds on exactly the stores that are new, or of the current
/// version and cleanly closed.
pub proof fn lemma_start_succeeds_exactly_when(config: StorageConfig, records: Records)
    ensures
        start_run(config, records).0 is Ok <==> may_start(records),
{
    lemma_keys_differ();
    lemma_decoded_pack::<System>(System::Version(STORAGE_VERSION));
    lemma_decoded_pack::<System>(System::Health(StorageHealth::Healthy));
    lemma_decoded_some::<System>(
        records[system_entry(STORAGE_VERSION_KEY)],
        System::Version(STORAGE_VERSION),
    );
    lemma_decoded_some::<System>(
        records[system_entry(STORAGE_HEALTH_KEY)],
        System::Health(StorageHealth::Healthy),
    );
    reveal_with_fuel(run_startup, 8);
}

/// A start that succeeds leaves the current version and the flag `Idle`
/// stored, and changes no entry outside the system partition.
pub proof fn lemma_started_store(config: StorageConfig, records: Records)
    requires
        start_run(config, records).0 is Ok,
    ensures
        holds_record(
            start_run(config, records).1,
            STORAGE_VERSION_KEY,
            System::Version(STORAGE_VERSION),
        ),
        holds_record(
            start_run(config, records).1,
            STORAGE_HEALTH_KEY,
            System::Health(StorageHealth::Idle),
        ),
        spec_health_reply(respond(start_run(config, records).1, health_request())) == Ok::<
            Option<StorageHealth>,
            Error,
        >(Some(StorageHealth::Idle)),
        forall|partition: Partition, key: Seq<u8>|
            partition != Partition::System ==> respond(
                start_run(config, records).1,
                RequestView::Get { partition, key },
            ) == #[trigger] respond(records, RequestView::Get { partition, key }),
{
    lemma_keys_differ();
    lemma_decoded_pack::<System>(System::Version(STORAGE_VERSION));
    lemma_decoded_pack::<System>(System::Health(StorageHealth::Idle));
    reveal_with_fuel(run_startup, 8);
    let stored = records[system_entry(STORAGE_VERSION_KEY)];
    if records.dom().contains(system_entry(STORAGE_VERSION_KEY)) {
        lemma_decoded_some::<System>(stored, System::Version(STORAGE_VERSION));
    }
}

/// A shutdown of a store succeeds, sets the flag to `Healthy` and changes
/// nothing else.
pub proof fn lemma_shutdown(records: Records)
    ensures
        shutdown_run(records) == (
            Ok::<(), Error>(()),
            records.insert(
                system_entry(STORAGE_HEALTH_KEY),
                System::Health(StorageHealth::Healthy).spec_pack(),
            ),
        ),
{
    reveal_with_fuel(run_shutdown, 3);
}

/// A start succeeds on a store that a shutdown has closed, whatever the
/// store was used for in between, as long as its version record was left
/// alone.
pub proof fn lemma_start_after_shutdown(config: StorageConfig, records: Records)
    requires
        holds_record(records, STORAGE_VERSION_KEY, System::Version(STORAGE_VERSION)),
    ensures
        start_run(config, shutdown_run(records).1) == (
            Ok::<(), Error>(()),
            records.insert(
                system_entry(STORAGE_HEALTH_KEY),
                System::Health(StorageHealth::Idle).spec_pack(),
            ),
        ),
{
    lemma_shutdown(records);
    lemma_keys_differ();
    lemma_decoded_pack::<System>(System::Version(STORAGE_VERSION));
    lemma_decoded_pack::<System>(System::Health(StorageHealth::Healthy));
    reveal_with_fuel(run_startup, 8);
    let closed = shutdown_run(records).1;
    assert(closed.insert(
        system_entry(STORAGE_HEALTH_KEY),
        System::Health(StorageHealth::Idle).spec_pack(),
    ) =~= records.insert(
        system_entry(STORAGE_HEALTH_KEY),
        System::Health(StorageHealth::Idle).spec_pack(),
    ));
}

/// The full cycle. After a start that succeeds, a flag that is set is the
/// flag that is read; the shutdown stores `Healthy`; and the next start
/// succeeds and leaves `Idle` to be read again.
pub proof fn lemma_full_cycle(first: StorageConfig, second: StorageConfig, records: Records)
    requires
        start_run(first, records).0 is Ok,
    ensures
        ({
            let opened = start_run(first, records).1;
            let marked = records_after(opened, set_health_request(StorageHealth::Idle));
            let closed = shutdown_run(marked);
            let reopened = start_run(second, closed.1);
            &&& spec_health_reply(respond(marked, health_request())) == Ok::<
                Option<StorageHealth>,
                Error,
            >(Some(StorageHealth::Idle))
            &&& closed.0 is Ok
            &&& spec_health_reply(respond(closed.1, health_request())) == Ok::<
                Option<StorageHealth>,
                Error,
            >(Some(StorageHealth::Healthy))
            &&& reopened.0 is Ok
            &&& spec_health_reply(respond(reopened.1, health_request())) == Ok::<
                Option<StorageHealth>,
                Error,
            >(Some(StorageHealth::Idle))
        }),
{
    let opened = start_run(first, records).1;
    let marked = records_after(opened, set_health_request(StorageHealth::Idle));
    lemma_started_store(first, records);
    lemma_keys_differ();
    lemma_decoded_pack::<System>(System::Health(StorageHealth::Idle));
    lemma_decoded_pack::<System>(System::Health(StorageHealth::Healthy));
    assert(holds_record(marked, STORAGE_VERSION_KEY, System::Version(STORAGE_VERSION)));
    lemma_shutdown(marked);
    lemma_start_after_shutdown(second, marked);
}

/// The start of a store with bytes under the version key that do not begin
/// with the tag of a version record fails as corrupt, and writes nothing.
pub proof fn lemma_start_corrupt_version(config: StorageConfig, records: Records)
    requires
        records.dom().contains(system_entry(STORAGE_VERSION_KEY)),
        records[system_entry(STORAGE_VERSION_KEY)].len() == 0 || records[system_entry(
            STORAGE_VERSION_KEY,
        )][0] != SYSTEM_VERSION_TAG,
    ensures
        start_run(config, records) == (
            Err::<(), Error>(Error::CorruptSystemRecord(STORAGE_VERSION_KEY)),
            records,
        ),
{
    reveal_with_fuel(run_startup, 8);
}

/// The start of a store with bytes under the health key that do not begin
/// with the tag of a health record fails as corrupt, and leaves those bytes
/// as they are. (The version is absent or current here.)
pub proof fn lemma_start_corrupt_health(config: StorageConfig, records: Records)
    requires
        !records.dom().contains(system_entry(STORAGE_VERSION_KEY)) || holds_record(
            records,
            STORAGE_VERSION_KEY,
            System::Version(STORAGE_VERSION),
        ),
        records.dom().contains(system_entry(STORAGE_HEALTH_KEY)),
        records[system_entry(STORAGE_HEALTH_KEY)].len() == 0 || records[system_entry(
            STORAGE_HEALTH_KEY,
        )][0] != SYSTEM_HEALTH_TAG,
    ensures
        start_run(config, records).0 == Err::<(), Error>(
            Error::CorruptSystemRecord(STORAGE_HEALTH_KEY),
        ),
        start_run(config, records).1[system_entry(STORAGE_HEALTH_KEY)] == records[system_entry(
            STORAGE_HEALTH_KEY,
        )],
{
    lemma_keys_differ();
    lemma_decoded_pack::<System>(System::Version(STORAGE_VERSION));
    lemma_system_pack_shape(System::Version(STORAGE_VERSION));
    reveal_with_fuel(run_startup, 8);
}

/// A start reads and writes system records only: whether it succeeds or
/// fails, every entry of every other partition is as it was.
pub proof fn lemma_start_leaves_other_partitions(
    config: StorageConfig,
    records: Records,
    partition: Partition,
    key: Seq<u8>,
)
    requires
        partition != Partition::System,
    ensures
        start_run(config, records).1.dom().contains((partition, key)) == records.dom().contains(
            (partition, key),
        ),
        records.dom().contains((partition, key)) ==> start_run(config, records).1[(
            partition,
            key,
        )] == records[(partition, key)],
{
    reveal_with_fuel(run_startup, 8);
}

/// No step of a start writes the flag `Healthy`: only a shutdown does.
pub proof fn lemma_start_never_marks_healthy(phase: StartupPhase, reply: ReplyView)
    ensures
        startup_action(phase, reply) matches StartupAction::Continue(_, request) ==> request
            != set_health_request(StorageHealth::Healthy),
{
    let healthy = System::Health(StorageHealth::Healthy);
    let idle = System::Health(StorageHealth::Idle);
    if idle.spec_pack() == healthy.spec_pack() {
        System::lemma_pack_injective(idle, healthy);
    }
    lemma_keys_differ();
}

/// The two system keys have different places.
pub proof fn lemma_keys_differ()
    ensures
        system_entry(STORAGE_VERSION_KEY) != system_entry(STORAGE_HEALTH_KEY),
{
    assert(STORAGE_VERSION_KEY.spec_pack()[0] == STORAGE_VERSION_KEY);
    assert(STORAGE_HEALTH_KEY.spec_pack()[0] == STORAGE_HEALTH_KEY);
}

} // verus!
