//! The record of deployments: the last fifty, oldest first.

use crate::clock::unix_now;
use crate::random::random_identifier;
use vstd::prelude::*;

verus! {

/// How many records a history keeps before the oldest leaves.
pub const HISTORY_LIMIT: usize = 50;

/// One deployment.
#[derive(Clone, Debug)]
pub struct DeploymentRecord {
    pub id: String,
    /// When it happened: seconds since the start of 1970 in UTC.
    pub timestamp: i64,
    /// The nanoseconds of that second.
    pub timestamp_nanos: u32,
    /// `update` or `rollback`.
    pub action: String,
    pub details: String,
    /// `success`, `failed` or `in_progress`.
    pub status: String,
    pub image_id: Option<String>,
    pub container_name: Option<String>,
}

/// A history after a record was added: the record stands last, and where
/// that makes more than fifty records, the oldest has left.
pub open spec fn with_record(history: Seq<DeploymentRecord>, record: DeploymentRecord) -> Seq<
    DeploymentRecord,
> {
    let grown = history.push(record);
    if grown.len() > HISTORY_LIMIT {
        grown.drop_first()
    } else {
        grown
    }
}

impl DeploymentRecord {
    /// The record of an update of the agent itself that was just triggered.
    pub fn update_triggered(id: String, timestamp: i64, timestamp_nanos: u32) -> (record: Self)
        ensures
            record.id == id,
            record.timestamp == timestamp,
            record.timestamp_nanos == timestamp_nanos,
            record.action@ == "update"@,
            record.details@ == "Agent Update Triggered"@,
            record.status@ == "in_progress"@,
            record.image_id is None,
            record.container_name matches Some(name) && name@ == "mini-ops"@,
    {
        DeploymentRecord {
            id,
            timestamp,
            timestamp_nanos,
            action: "update".to_owned(),
            details: "Agent Update Triggered".to_owned(),
            status: "in_progress".to_owned(),
            image_id: None,
            container_name: Some("mini-ops".to_owned()),
        }
    }

    /// The record of an update of the agent itself that is triggered now,
    /// under a fresh random identifier.
    pub fn update_triggered_now() -> (record: Self)
        ensures
            record.id@.len() == 36,
            record.action@ == "update"@,
            record.details@ == "Agent Update Triggered"@,
            record.status@ == "in_progress"@,
            record.image_id is None,
            record.container_name matches Some(name) && name@ == "mini-ops"@,
    {
        let id = random_identifier();
        let (seconds, nanos) = unix_now();
        Self::update_triggered(id, seconds, nanos)
    }
}

/// The keeper of the history file.
#[derive(Clone, Debug)]
pub struct HistoryManager {
    file_path: String,
}

impl HistoryManager {
    /// A keeper for the history in the file at `file_path`.
    pub fn new(file_path: &str) -> (manager: Self)
        ensures
            manager.path() == file_path@,
    {
        HistoryManager { file_path: file_path.to_owned() }
    }

    /// Where the history is kept.
    pub closed spec fn path(&self) -> Seq<char> {
        self.file_path@
    }

    /// Where the history is kept.
    pub fn file_path(&self) -> (path: &str)
        ensures
            path@ == self.path(),
    {
        self.file_path.as_str()
    }

    /// The history that was read: the records of the file, and none where
    /// the file is missing or cannot be understood.
    pub fn get_history(&self, stored: Option<Vec<DeploymentRecord>>) -> (history: Vec<
        DeploymentRecord,
    >)
        ensures
            history@ == match stored {
                Some(records) => records@,
                None => Seq::<DeploymentRecord>::empty(),
            },
    {
        match stored {
            Some(records) => records,
            None => Vec::new(),
        }
    }

    /// The history to write back after `record` was added to `history`.
    pub fn add_record(&self, history: Vec<DeploymentRecord>, record: DeploymentRecord) -> (kept:
        Vec<DeploymentRecord>)
        ensures
            kept@ == with_record(history@, record),
    {
        let mut kept = history;
        kept.push(record);
        if kept.len() > HISTORY_LIMIT {
            kept.remove(0);
            assert(kept@ =~= history@.push(record).drop_first());
        }
        kept
    }
}

} // verus!
