//! Stored snapshot and file-change records, and the database's answers
//! that the engine decides on.

use vstd::prelude::*;
use crate::error::OpenRollbackError;
use crate::text::{spec_int_text, i64_text, concat3};

verus! {

/// A stored snapshot.
#[derive(Debug, Clone, PartialEq, Eq)]
pub struct SnapshotRecord {
    pub id: i64,
    pub timestamp: String,
    pub description: String,
    pub status: String,
}

/// A stored change of one file within a snapshot.
#[derive(Debug, Clone, PartialEq, Eq)]
pub struct FileChangeRecord {
    pub id: i64,
    pub snapshot_id: i64,
    pub path: String,
    pub action: String,
    pub original_hash: Option<String>,
    pub backup_path: Option<String>,
}

/// Whether `e` is a snapshot error with message `msg`.
pub open spec fn is_snapshot_error(e: OpenRollbackError, msg: Seq<char>) -> bool {
    e matches OpenRollbackError::Snapshot(m) && m@ == msg
}

/// Whether `r` failed with a snapshot error with message `msg`.
pub open spec fn fails_with<T>(r: Result<T, OpenRollbackError>, msg: Seq<char>) -> bool {
    r matches Err(e) && is_snapshot_error(e, msg)
}

/// Status of a snapshot whose changes are still in place.
pub open spec fn status_active() -> Seq<char> {
    "active"@
}

/// Status of a snapshot that has been rolled back.
pub open spec fn status_rolled_back() -> Seq<char> {
    "rolled_back"@
}

/// The status text `active`.
pub fn active_status() -> (s: &'static str)
    ensures
        s@ == status_active(),
{
    "active"
}

/// The status text `rolled_back`.
pub fn rolled_back_status() -> (s: &'static str)
    ensures
        s@ == status_rolled_back(),
{
    "rolled_back"
}

/// The message for a snapshot id without a record.
pub open spec fn spec_not_found_message(snapshot_id: i64) -> Seq<char> {
    "snapshot "@ + spec_int_text(snapshot_id as int) + " not found"@
}

/// The error for a snapshot id without a record.
pub fn snapshot_not_found(snapshot_id: i64) -> (e: OpenRollbackError)
    ensures
        is_snapshot_error(e, spec_not_found_message(snapshot_id)),
{
    let id = i64_text(snapshot_id);
    OpenRollbackError::Snapshot(concat3("snapshot ", id.as_str(), " not found"))
}

/// The snapshot a lookup found, or the not-found error when it found none.
pub fn require_snapshot(snapshot_id: i64, found: Option<SnapshotRecord>) -> (r: Result<
    SnapshotRecord,
    OpenRollbackError,
>)
    ensures
        found matches Some(s) ==> r == Ok::<SnapshotRecord, OpenRollbackError>(s),
        found is None ==> fails_with(r, spec_not_found_message(snapshot_id)),
{
    match found {
        Some(s) => Ok(s),
        None => Err(snapshot_not_found(snapshot_id)),
    }
}

/// Checks the number of rows a status update or deletion of snapshot
/// `snapshot_id` changed: none means the snapshot does not exist.
pub fn require_rows_changed(snapshot_id: i64, changed: usize) -> (r: Result<(), OpenRollbackError>)
    ensures
        changed > 0 ==> r is Ok,
        changed == 0 ==> fails_with(r, spec_not_found_message(snapshot_id)),
{
    if changed == 0 {
        Err(snapshot_not_found(snapshot_id))
    } else {
        Ok(())
    }
}

} // verus!
