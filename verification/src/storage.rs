//! The adapter's lifecycle: how a store is opened, checked, used and closed.
//!
//! A start walks through its phases one engine request at a time:
//! the store is opened and flushed, its version is checked, then its health
//! flag, and at last the flag is set to `Idle`, which marks the store as
//! open. Only a start that went through gives out a `Storage`. A shutdown
//! takes the `Storage` back, sets the flag to `Healthy` and flushes.
//! A store on which a start finds `Idle` was not closed by its last run, and
//! the start refuses it.

use vstd::prelude::*;
use crate::access::{fetch_request, insert_request, spec_fetch_request, spec_insert_request};
use crate::config::StorageConfig;
use crate::engine::{
    reply_view, OpenPlan, OpenPlanView, Reply, ReplyView, Request, RequestView,
};
use crate::error::{EngineError, Error};
use crate::health::StorageHealth;
use crate::partition::{column_families, spec_column_families, Partition};
use crate::system::{
    health_check, read_health, spec_health_check, spec_read_health, spec_system_reply,
    spec_version_check, system_reply, version_check, System, STORAGE_HEALTH_KEY,
    STORAGE_VERSION_KEY, SYSTEM_HEALTH_TAG, SYSTEM_VERSION_TAG,
};

verus! {

/// What a start is waiting for.
#[derive(Clone, Copy, Debug, PartialEq, Eq, Structural)]
pub enum StartupPhase {
    /// The engine is opening the store.
    Opening,
    /// The engine is flushing all partitions.
    Flushing,
    /// The engine is flushing the system partition.
    FlushingSystem,
    /// The engine is reading the version record.
    VersionCheck,
    /// The engine is writing the version record of a first run.
    VersionWrite,
    /// The engine is reading the health record.
    HealthCheck,
    /// The engine is writing the health flag `Idle`.
    HealthWrite,
}

/// What a shutdown is waiting for.
#[derive(Clone, Copy, Debug, PartialEq, Eq, Structural)]
pub enum ShutdownPhase {
    /// The engine is writing the health flag `Healthy`.
    MarkingHealthy,
    /// The engine is flushing all partitions.
    Flushing,
}

/// A start in progress.
#[derive(Debug, PartialEq, Eq)]
pub struct Startup {
    config: StorageConfig,
    phase: StartupPhase,
}

/// An open store. There is no way to one but through a start.
#[derive(Debug, PartialEq, Eq)]
pub struct Storage {
    config: StorageConfig,
}

/// A shutdown in progress.
#[derive(Debug, PartialEq, Eq)]
pub struct Shutdown {
    phase: ShutdownPhase,
}

/// How a start goes on after a reply of the engine.
#[derive(Debug, PartialEq, Eq)]
pub enum StartupStep {
    /// The start goes on with the next request.
    Continue(Startup, Request),
    /// The store is open.
    Started(Storage),
    /// The start failed; nothing more is asked of the engine.
    Failed(Error),
}

/// How a shutdown goes on after a reply of the engine.
#[derive(Debug, PartialEq, Eq)]
pub enum ShutdownStep {
    /// The shutdown goes on with the next request.
    Continue(Shutdown, Request),
    /// The store is closed; the host may let go of the engine handle.
    Closed,
    /// The shutdown failed; nothing more is asked of the engine.
    Failed(Error),
}

/// What a start decides after a reply of the engine.
pub enum StartupAction {
    Continue(StartupPhase, RequestView),
    Started,
    Failed(Error),
}

/// What a shutdown decides after a reply of the engine.
pub enum ShutdownAction {
    Continue(ShutdownPhase, RequestView),
    Closed,
    Failed(Error),
}

/// All that the engine needs to open a store with the given configuration:
/// the path, the settings of its options, the thread counts of its
/// environment, and one column family for each partition of the table.
pub open spec fn spec_open_plan(config: StorageConfig) -> OpenPlanView {
    OpenPlanView {
        path: config.path@,
        options: config.spec_engine_options(),
        env: config.env,
        column_families: spec_column_families(),
    }
}

/// The read of the version record.
pub open spec fn version_request() -> RequestView {
    spec_fetch_request::<u8, System>(STORAGE_VERSION_KEY)
}

/// The read of the health record.
pub open spec fn health_request() -> RequestView {
    spec_fetch_request::<u8, System>(STORAGE_HEALTH_KEY)
}

/// The write of a health flag.
pub open spec fn set_health_request(health: StorageHealth) -> RequestView {
    spec_insert_request::<u8, System>(STORAGE_HEALTH_KEY, System::Health(health))
}

/// The transitions of a start. An error of the engine ends the start in
/// every phase, and is handed on unchanged.
pub open spec fn startup_action(phase: StartupPhase, reply: ReplyView) -> StartupAction {
    match reply {
        Err(error) => StartupAction::Failed(Error::Engine(error)),
        Ok(_) => match phase {
            StartupPhase::Opening => StartupAction::Continue(
                StartupPhase::Flushing,
                RequestView::Flush,
            ),
            StartupPhase::Flushing => StartupAction::Continue(
                StartupPhase::FlushingSystem,
                RequestView::FlushPartition(Partition::System),
            ),
            StartupPhase::FlushingSystem => StartupAction::Continue(
                StartupPhase::VersionCheck,
                version_request(),
            ),
            StartupPhase::VersionCheck => match spec_version_reply(reply) {
                Err(error) => StartupAction::Failed(error),
                Ok(stored) => match spec_version_check(stored) {
                    Err(error) => StartupAction::Failed(error),
                    Ok(Some(record)) => StartupAction::Continue(
                        StartupPhase::VersionWrite,
                        spec_insert_request::<u8, System>(STORAGE_VERSION_KEY, record),
                    ),
                    Ok(None) => StartupAction::Continue(
                        StartupPhase::HealthCheck,
                        health_request(),
                    ),
                },
            },
            StartupPhase::VersionWrite => StartupAction::Continue(
                StartupPhase::HealthCheck,
                health_request(),
            ),
            StartupPhase::HealthCheck => match spec_health_reply(reply) {
                Err(error) => StartupAction::Failed(error),
                Ok(health) => match spec_health_check(health) {
                    Err(error) => StartupAction::Failed(error),
                    Ok(_) => StartupAction::Continue(
                        StartupPhase::HealthWrite,
                        set_health_request(StorageHealth::Idle),
                    ),
                },
            },
            StartupPhase::HealthWrite => StartupAction::Started,
        },
    }
}

/// The transitions of a shutdown. An error of the engine ends the shutdown,
/// and is handed on unchanged.
pub open spec fn shutdown_action(phase: ShutdownPhase, reply: ReplyView) -> ShutdownAction {
    match reply {
        Err(error) => ShutdownAction::Failed(Error::Engine(error)),
        Ok(_) => match phase {
            ShutdownPhase::MarkingHealthy => ShutdownAction::Continue(
                ShutdownPhase::Flushing,
                RequestView::Flush,
            ),
            ShutdownPhase::Flushing => ShutdownAction::Closed,
        },
    }
}

/// The record that a reply to the read of the version record holds. Bytes
/// that do not begin with the tag of a version record are corruption.
pub open spec fn spec_version_reply(reply: ReplyView) -> Result<Option<System>, Error> {
    spec_system_reply(STORAGE_VERSION_KEY, SYSTEM_VERSION_TAG, reply)
}

/// The health flag that a reply to the read of the health record holds.
/// Bytes that do not begin with the tag of a health record are corruption.
pub open spec fn spec_health_reply(reply: ReplyView) -> Result<Option<StorageHealth>, Error> {
    match spec_system_reply(STORAGE_HEALTH_KEY, SYSTEM_HEALTH_TAG, reply) {
        Err(error) => Err(error),
        Ok(stored) => spec_read_health(stored),
    }
}

/// The sum of the sizes of files.
pub open spec fn spec_total_size(sizes: Seq<usize>) -> int
    decreases sizes.len(),
{
    if sizes.len() == 0 {
        0
    } else {
        spec_total_size(sizes.drop_last()) + sizes.last()
    }
}

/// The size that is reported for a list of file sizes, or for the error of
/// the engine in its place. A list always gives a size: the sum of the
/// sizes, or the largest `usize` where the sum is larger than that.
pub open spec fn spec_size(live_files: Result<Seq<usize>, EngineError>) -> Result<
    Option<usize>,
    Error,
> {
    match live_files {
        Err(error) => Err(Error::Engine(error)),
        Ok(sizes) => if spec_total_size(sizes) <= usize::MAX {
            Ok(Some(spec_total_size(sizes) as usize))
        } else {
            Ok(Some(usize::MAX))
        },
    }
}

impl Startup {
    /// The phase of the start.
    pub closed spec fn spec_phase(&self) -> StartupPhase {
        self.phase
    }

    /// The configuration that the store is being opened with.
    pub closed spec fn spec_config(&self) -> &StorageConfig {
        &self.config
    }

    /// The phase of the start.
    #[verifier::when_used_as_spec(spec_phase)]
    pub fn phase(&self) -> (phase: StartupPhase)
        ensures
            phase == self.spec_phase(),
    {
        self.phase
    }

    /// The configuration that the store is being opened with.
    #[verifier::when_used_as_spec(spec_config)]
    pub fn config(&self) -> (config: &StorageConfig)
        ensures
            config == self.spec_config(),
    {
        &self.config
    }

    /// Takes the engine's reply to the last request and decides how the
    /// start goes on, as `startup_action` says.
    pub fn step(self, reply: Reply) -> (step: StartupStep)
        ensures
            match step {
                StartupStep::Continue(next, request) => {
                    &&& startup_action(self.phase(), reply_view(reply))
                        == StartupAction::Continue(next.phase(), request@)
                    &&& next.config() == self.config()
                },
                StartupStep::Started(storage) => {
                    &&& startup_action(self.phase(), reply_view(reply)) == StartupAction::Started
                    &&& storage.config() == self.config()
                },
                StartupStep::Failed(error) => startup_action(self.phase(), reply_view(reply))
                    == StartupAction::Failed(error),
            },
    {
        let Startup { config, phase } = self;
        let value = match reply {
            Err(error) => {
                return StartupStep::Failed(Error::Engine(error));
            },
            Ok(value) => value,
        };
        match phase {
            StartupPhase::Opening => StartupStep::Continue(
                Startup { config, phase: StartupPhase::Flushing },
                Request::Flush,
            ),
            StartupPhase::Flushing => StartupStep::Continue(
                Startup { config, phase: StartupPhase::FlushingSystem },
                Request::FlushPartition(Partition::System),
            ),
            StartupPhase::FlushingSystem => StartupStep::Continue(
                Startup { config, phase: StartupPhase::VersionCheck },
                fetch_request::<u8, System>(&STORAGE_VERSION_KEY),
            ),
            StartupPhase::VersionCheck => {
                let stored = match system_reply(
                    STORAGE_VERSION_KEY,
                    SYSTEM_VERSION_TAG,
                    Ok(value),
                ) {
                    Err(error) => {
                        return StartupStep::Failed(error);
                    },
                    Ok(stored) => stored,
                };
                match version_check(stored) {
                    Err(error) => StartupStep::Failed(error),
                    Ok(Some(record)) => StartupStep::Continue(
                        Startup { config, phase: StartupPhase::VersionWrite },
                        insert_request::<u8, System>(&STORAGE_VERSION_KEY, &record),
                    ),
                    Ok(None) => StartupStep::Continue(
                        Startup { config, phase: StartupPhase::HealthCheck },
                        fetch_request::<u8, System>(&STORAGE_HEALTH_KEY),
                    ),
                }
            },
            StartupPhase::VersionWrite => StartupStep::Continue(
                Startup { config, phase: StartupPhase::HealthCheck },
                fetch_request::<u8, System>(&STORAGE_HEALTH_KEY),
            ),
            StartupPhase::HealthCheck => {
                let health = match Storage::health_reply(Ok(value)) {
                    Err(error) => {
                        return StartupStep::Failed(error);
                    },
                    Ok(health) => health,
                };
                match health_check(health) {
                    Err(error) => StartupStep::Failed(error),
                    Ok(_) => StartupStep::Continue(
                        Startup { config, phase: StartupPhase::HealthWrite },
                        insert_request::<u8, System>(
                            &STORAGE_HEALTH_KEY,
                            &System::Health(StorageHealth::Idle),
                        ),
                    ),
                }
            },
            StartupPhase::HealthWrite => StartupStep::Started(Storage { config }),
        }
    }
}

impl Shutdown {
    /// The phase of the shutdown.
    pub closed spec fn spec_phase(&self) -> ShutdownPhase {
        self.phase
    }

    /// The phase of the shutdown.
    #[verifier::when_used_as_spec(spec_phase)]
    pub fn phase(&self) -> (phase: ShutdownPhase)
        ensures
            phase == self.spec_phase(),
    {
        self.phase
    }

    /// Takes the engine's reply to the last request and decides how the
    /// shutdown goes on, as `shutdown_action` says.
    pub fn step(self, reply: Reply) -> (step: ShutdownStep)
        ensures
            match step {
                ShutdownStep::Continue(next, request) => shutdown_action(
                    self.phase(),
                    reply_view(reply),
                ) == ShutdownAction::Continue(next.phase(), request@),
                ShutdownStep::Closed => shutdown_action(self.phase(), reply_view(reply))
                    == ShutdownAction::Closed,
                ShutdownStep::Failed(error) => shutdown_action(self.phase(), reply_view(reply))
                    == ShutdownAction::Failed(error),
            },
    {
        match reply {
            Err(error) => ShutdownStep::Failed(Error::Engine(error)),
            Ok(_) => match self.phase {
                ShutdownPhase::MarkingHealthy => ShutdownStep::Continue(
                    Shutdown { phase: ShutdownPhase::Flushing },
                    Request::Flush,
                ),
                ShutdownPhase::Flushing => ShutdownStep::Closed,
            },
        }
    }
}

impl Storage {
    /// The configuration that the store was opened with.
    pub closed spec fn spec_config(&self) -> &StorageConfig {
        &self.config
    }

    /// The configuration that the store was opened with.
    #[verifier::when_used_as_spec(spec_config)]
    pub fn config(&self) -> (config: &StorageConfig)
        ensures
            config == self.spec_config(),
    {
        &self.config
    }

    /// Plans the opening of a store: the engine's options from the
    /// configuration, and the table of column families.
    pub fn new(config: &StorageConfig) -> (plan: OpenPlan)
        ensures
            plan@ == spec_open_plan(*config),
    {
        OpenPlan {
            path: config.path.clone(),
            options: config.engine_options(),
            env: config.env,
            column_families: column_families(),
        }
    }

    /// Begins the start of a store: the first request opens it.
    pub fn start(config: StorageConfig) -> (begun: (Startup, Request))
        ensures
            begun.0.phase() == StartupPhase::Opening,
            *begun.0.config() == config,
            begun.1@ == RequestView::Open(spec_open_plan(config)),
    {
        let plan = Storage::new(&config);
        (Startup { config, phase: StartupPhase::Opening }, Request::Open(plan))
    }

    /// Begins the shutdown of the store, which is given up: the first
    /// request sets the health flag to `Healthy`.
    pub fn shutdown(self) -> (begun: (Shutdown, Request))
        ensures
            begun.0.phase() == ShutdownPhase::MarkingHealthy,
            begun.1@ == set_health_request(StorageHealth::Healthy),
    {
        (
            Shutdown { phase: ShutdownPhase::MarkingHealthy },
            insert_request::<u8, System>(
                &STORAGE_HEALTH_KEY,
                &System::Health(StorageHealth::Healthy),
            ),
        )
    }

    /// The request that reads the health flag.
    pub fn get_health(&self) -> (request: Request)
        ensures
            request@ == health_request(),
    {
        fetch_request::<u8, System>(&STORAGE_HEALTH_KEY)
    }

    /// Reads the health flag from the engine's reply to `get_health`: none
    /// where no record is stored. Anything under the health key that is not
    /// a health record is reported as corruption.
    pub fn health_reply(reply: Reply) -> (r: Result<Option<StorageHealth>, Error>)
        ensures
            r == spec_health_reply(reply_view(reply)),
    {
        match system_reply(STORAGE_HEALTH_KEY, SYSTEM_HEALTH_TAG, reply) {
            Err(error) => Err(error),
            Ok(stored) => read_health(stored),
        }
    }

    /// The request that stores a health flag.
    pub fn set_health(&self, health: StorageHealth) -> (request: Request)
        ensures
            request@ == set_health_request(health),
    {
        insert_request::<u8, System>(&STORAGE_HEALTH_KEY, &System::Health(health))
    }

    /// The size of the store on disk, from the sizes of the engine's live
    /// data files: their sum. The engine's error is handed on unchanged.
    /// Whenever the engine reports a list, a size is returned; a sum that no
    /// `usize` holds is returned as the largest `usize`.
    pub fn size(&self, live_files: Result<Vec<usize>, EngineError>) -> (r: Result<
        Option<usize>,
        Error,
    >)
        ensures
            r == spec_size(
                match live_files {
                    Ok(sizes) => Ok(sizes@),
                    Err(error) => Err(error),
                },
            ),
    {
        let sizes = match live_files {
            Err(error) => {
                return Err(Error::Engine(error));
            },
            Ok(sizes) => sizes,
        };
        let mut size: usize = 0;
        let mut i: usize = 0;
        while i < sizes.len()
            invariant
                i <= sizes.len(),
                live_files == Ok::<Vec<usize>, EngineError>(sizes),
                size == spec_total_size(sizes@.take(i as int)),
            decreases sizes.len() - i,
        {
            proof {
                let next = sizes@.take(i + 1);
                assert(next.drop_last() =~= sizes@.take(i as int));
                assert(next.last() == sizes@[i as int]);
                assert(spec_total_size(next) == size + sizes@[i as int]);
                lemma_total_size_monotonic(sizes@, i + 1);
            }
            match size.checked_add(sizes[i]) {
                Some(sum) => {
                    size = sum;
                },
                None => {
                    return Ok(Some(usize::MAX));
                },
            }
            i = i + 1;
        }
        assert(sizes@.take(i as int) =~= sizes@);
        Ok(Some(size))
    }
}

/// A list of file sizes always gives a size, never `None`: the sum where a
/// `usize` holds it, and in any case no less than any single file.
pub proof fn lemma_size_is_reported(sizes: Seq<usize>)
    ensures
        spec_size(Ok(sizes)) is Ok,
        spec_size(Ok(sizes))->Ok_0 is Some,
        spec_total_size(sizes) <= usize::MAX ==> spec_size(Ok(sizes)) == Ok::<
            Option<usize>,
            Error,
        >(Some(spec_total_size(sizes) as usize)),
        forall|i: int|
            0 <= i < sizes.len() ==> #[trigger] sizes[i] <= spec_size(Ok(sizes))->Ok_0->Some_0,
{
    assert forall|i: int| 0 <= i < sizes.len() implies #[trigger] sizes[i] <= spec_size(
        Ok(sizes),
    )->Ok_0->Some_0 by {
        lemma_total_size_bounds(sizes, i);
    }
}

/// Every size of a list is at most the sum of them all.
pub proof fn lemma_total_size_bounds(sizes: Seq<usize>, i: int)
    requires
        0 <= i < sizes.len(),
    ensures
        sizes[i] <= spec_total_size(sizes),
    decreases sizes.len(),
{
    lemma_total_size_monotonic(sizes.drop_last(), 0);
    if i < sizes.len() - 1 {
        lemma_total_size_bounds(sizes.drop_last(), i);
    }
}

/// The sum of the first sizes of a list is at most the sum of them all.
pub proof fn lemma_total_size_monotonic(sizes: Seq<usize>, n: int)
    requires
        0 <= n <= sizes.len(),
    ensures
        0 <= spec_total_size(sizes.take(n)) <= spec_total_size(sizes),
    decreases sizes.len(),
{
    if n == sizes.len() {
        assert(sizes.take(n) =~= sizes);
        if sizes.len() > 0 {
            lemma_total_size_monotonic(sizes.drop_last(), n - 1);
            assert(sizes.drop_last().take(n - 1) =~= sizes.drop_last());
        }
    } else {
        lemma_total_size_monotonic(sizes.drop_last(), n);
        assert(sizes.drop_last().take(n) =~= sizes.take(n));
    }
}

} // verus!
