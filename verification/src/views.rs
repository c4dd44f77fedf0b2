//! What the desktop front end is shown: snapshots with their change counts,
//! the changes of a snapshot, and the watcher's state.

use vstd::prelude::*;
use crate::records::{SnapshotRecord, FileChangeRecord};
use crate::watch::PrefetchResult;

verus! {

/// A snapshot on the time line, with its number of changes.
#[derive(Debug, Clone, PartialEq, Eq)]
pub struct SnapshotView {
    pub id: i64,
    pub timestamp: String,
    pub description: String,
    pub status: String,
    pub file_count: i64,
}

/// Shows a stored snapshot with its number of changes.
pub fn snapshot_view(snapshot: SnapshotRecord, file_count: i64) -> (v: SnapshotView)
    ensures
        v == (SnapshotView {
            id: snapshot.id,
            timestamp: snapshot.timestamp,
            description: snapshot.description,
            status: snapshot.status,
            file_count,
        }),
{
    SnapshotView {
        id: snapshot.id,
        timestamp: snapshot.timestamp,
        description: snapshot.description,
        status: snapshot.status,
        file_count,
    }
}

/// The answer to creating a snapshot.
#[derive(Debug, Clone, Copy, PartialEq, Eq, Structural)]
pub struct CreateSnapshotResult {
    pub id: i64,
    pub file_count: i64,
}

/// One change of a snapshot, as shown.
#[derive(Debug, Clone, PartialEq, Eq)]
pub struct FileChangeView {
    pub id: i64,
    pub path: String,
    pub action: String,
    pub original_hash: Option<String>,
    pub backup_path: Option<String>,
}

/// Shows a stored change.
pub fn file_change_view(change: FileChangeRecord) -> (v: FileChangeView)
    ensures
        v == (FileChangeView {
            id: change.id,
            path: change.path,
            action: change.action,
            original_hash: change.original_hash,
            backup_path: change.backup_path,
        }),
{
    FileChangeView {
        id: change.id,
        path: change.path,
        action: change.action,
        original_hash: change.original_hash,
        backup_path: change.backup_path,
    }
}

/// A well-known directory offered as a watch target.
#[derive(Debug, Clone, PartialEq, Eq)]
pub struct QuickPath {
    pub label: String,
    pub path: String,
}

/// The watcher's state.
#[derive(Debug, Clone, PartialEq, Eq)]
pub struct WatchingStatus {
    pub is_watching: bool,
    pub paths: Vec<String>,
    pub pending_changes: usize,
    pub cached_files: usize,
    pub prefetch_total: usize,
    pub prefetch_truncated: bool,
}

/// The watcher's state, with the last cache run summarised (zero and not
/// cut when there was none).
pub fn watching_status(
    is_watching: bool,
    paths: Vec<String>,
    pending_changes: usize,
    cached_files: usize,
    prefetch: Option<PrefetchResult>,
) -> (s: WatchingStatus)
    ensures
        s.is_watching == is_watching,
        s.paths == paths,
        s.pending_changes == pending_changes,
        s.cached_files == cached_files,
        s.prefetch_total == (match prefetch {
            Some(p) => p.total_candidates,
            None => 0,
        }),
        s.prefetch_truncated == (prefetch matches Some(p) && p.truncated),
{
    let (total, truncated) = match prefetch {
        Some(p) => (p.total_candidates, p.truncated),
        None => (0, false),
    };
    WatchingStatus {
        is_watching,
        paths,
        pending_changes,
        cached_files,
        prefetch_total: total,
        prefetch_truncated: truncated,
    }
}

/// The health answer of the back end.
pub fn app_status() -> (s: &'static str)
    ensures
        s@ == "OpenRollback backend ready"@,
{
    "OpenRollback backend ready"
}

} // verus!
