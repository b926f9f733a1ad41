//! What this layer asks of the embedded engine, and what it hears back.
//!
//! The layer never touches the engine itself. It hands its host a `Request`,
//! the host performs it on the one engine handle and hands back the `Reply`.
//! The laws of this crate are stated against `respond`, the answers of an
//! engine that keeps what it is given and never fails.

use vstd::prelude::*;
use crate::config::{EngineOption, EnvConfig};
use crate::error::EngineError;
use crate::partition::{ColumnFamily, Partition};

verus! {

/// All that the engine needs to open a store.
#[derive(Debug, PartialEq, Eq)]
pub struct OpenPlan {
    /// The directory of the store.
    pub path: String,
    /// The settings of the engine's options, in the order to apply them.
    pub options: Vec<EngineOption>,
    /// The thread counts of the engine's environment.
    pub env: EnvConfig,
    /// The column families to open the store with.
    pub column_families: Vec<ColumnFamily>,
}

/// The mathematical content of an `OpenPlan`.
pub struct OpenPlanView {
    pub path: Seq<char>,
    pub options: Seq<EngineOption>,
    pub env: EnvConfig,
    pub column_families: Seq<ColumnFamily>,
}

impl View for OpenPlan {
    type V = OpenPlanView;

    open spec fn view(&self) -> OpenPlanView {
        OpenPlanView {
            path: self.path@,
            options: self.options@,
            env: self.env,
            column_families: self.column_families@,
        }
    }
}

/// One operation for the host to perform on the engine.
#[derive(Debug, PartialEq, Eq)]
pub enum Request {
    /// Open the store, or create it where the plan allows that.
    Open(OpenPlan),
    /// Write all pending data to disk, and wait until that is done.
    Flush,
    /// Write the pending data of one partition to disk, and wait.
    FlushPartition(Partition),
    /// Read the value under a key.
    Get { partition: Partition, key: Vec<u8> },
    /// Store a value under a key, in place of any that is there.
    Put { partition: Partition, key: Vec<u8>, value: Vec<u8> },
    /// Remove every entry of a partition.
    Truncate(Partition),
}

/// The mathematical content of a `Request`.
pub enum RequestView {
    Open(OpenPlanView),
    Flush,
    FlushPartition(Partition),
    Get { partition: Partition, key: Seq<u8> },
    Put { partition: Partition, key: Seq<u8>, value: Seq<u8> },
    Truncate(Partition),
}

impl View for Request {
    type V = RequestView;

    open spec fn view(&self) -> RequestView {
        match *self {
            Request::Open(plan) => RequestView::Open(plan@),
            Request::Flush => RequestView::Flush,
            Request::FlushPartition(partition) => RequestView::FlushPartition(partition),
            Request::Get { partition, key } => RequestView::Get { partition, key: key@ },
            Request::Put { partition, key, value } => RequestView::Put {
                partition,
                key: key@,
                value: value@,
            },
            Request::Truncate(partition) => RequestView::Truncate(partition),
        }
    }
}

/// What the engine answered: the value read, where the request was a read
/// and the key is present, or its error.
pub type Reply = Result<Option<Vec<u8>>, EngineError>;

/// The mathematical content of a `Reply`.
pub type ReplyView = Result<Option<Seq<u8>>, EngineError>;

/// The mathematical content of a reply.
pub open spec fn reply_view(reply: Reply) -> ReplyView {
    match reply {
        Ok(Some(bytes)) => Ok(Some(bytes@)),
        Ok(None) => Ok(None),
        Err(error) => Err(error),
    }
}

/// The entries of a store: the value under each key of each partition.
pub type Records = Map<(Partition, Seq<u8>), Seq<u8>>;

/// The keys of one partition.
pub open spec fn keys_of(partition: Partition) -> Set<(Partition, Seq<u8>)> {
    Set::new(|entry: (Partition, Seq<u8>)| entry.0 == partition)
}

/// The entries after an engine that never fails has performed a request.
pub open spec fn records_after(records: Records, request: RequestView) -> Records {
    match request {
        RequestView::Put { partition, key, value } => records.insert((partition, key), value),
        RequestView::Truncate(partition) => records.remove_keys(keys_of(partition)),
        _ => records,
    }
}

/// What an engine that never fails reads for a request.
pub open spec fn value_read(records: Records, request: RequestView) -> Option<Seq<u8>> {
    match request {
        RequestView::Get { partition, key } => if records.dom().contains((partition, key)) {
            Some(records[(partition, key)])
        } else {
            None
        },
        _ => None,
    }
}

/// The reply of an engine that never fails.
pub open spec fn respond(records: Records, request: RequestView) -> ReplyView {
    Ok(value_read(records, request))
}

} // verus!
