use openrollback::action::FileAction;
use openrollback::error::OpenRollbackError;
use openrollback::events::FileChangeEvent;
use openrollback::records::{
    require_rows_changed, require_snapshot, snapshot_not_found, FileChangeRecord, SnapshotRecord,
};
use openrollback::snapshot::{
    backup_source, begin_rollback, change_action, coalesce_by_keys, coalesce_events,
    commit_snapshot, created_file_step, detail_line, event_quality, finish_rollback,
    new_snapshot_row, snapshot_row_at, recorded_file_step, require_changes, require_copy, require_pending,
    require_restored, require_watching, rollback_order, snapshot_dir_name, step_outcome, undo_outcome,
    BackupSource, ChangeOutcome, RollbackProgress, RollbackStep, SnapshotCommit,
};
use openrollback::watch::PrefetchResult;

fn ev(path: &str, action: FileAction, hash: Option<&str>, staged: Option<&str>) -> FileChangeEvent {
    FileChangeEvent {
        path: path.to_string(),
        action,
        original_hash: hash.map(|s| s.to_string()),
        staging_backup: staged.map(|s| s.to_string()),
    }
}

fn record(id: i64, status: &str) -> SnapshotRecord {
    SnapshotRecord {
        id,
        timestamp: "2026-06-06T00:00:00Z".into(),
        description: "d".into(),
        status: status.into(),
    }
}

fn change(id: i64, action: &str, backup: Option<&str>) -> FileChangeRecord {
    FileChangeRecord {
        id,
        snapshot_id: 1,
        path: format!("/w/f{id}"),
        action: action.into(),
        original_hash: None,
        backup_path: backup.map(|s| s.to_string()),
    }
}

fn snapshot_msg<T: std::fmt::Debug>(r: Result<T, OpenRollbackError>) -> String {
    match r {
        Err(OpenRollbackError::Snapshot(m)) => m,
        other => panic!("expected a snapshot error, got {other:?}"),
    }
}

#[test]
fn quality_scores() {
    assert_eq!(event_quality(&ev("/a", FileAction::Create, None, None)), 1);
    assert_eq!(event_quality(&ev("/a", FileAction::Modify, None, None)), 2);
    assert_eq!(event_quality(&ev("/a", FileAction::Delete, None, None)), 3);
    assert_eq!(event_quality(&ev("/a", FileAction::Create, None, Some("/s"))), 5);
    assert_eq!(event_quality(&ev("/a", FileAction::Delete, Some("h"), Some("/s"))), 9);
    assert_eq!(event_quality(&ev("/a", FileAction::Modify, Some("h"), None)), 4);
}

#[test]
fn coalescing_keeps_best_event_per_file() {
    let events = vec![
        ev("/w/b.txt", FileAction::Create, None, None),
        ev("/w/a.txt", FileAction::Modify, Some("h1"), Some("/s/1")),
        ev("/w/b.txt", FileAction::Modify, Some("h2"), Some("/s/2")),
        ev("/w/a.txt", FileAction::Delete, None, None),
        ev("/w/b.txt", FileAction::Modify, Some("h3"), Some("/s/3")),
    ];
    let keys = events.iter().map(|e| e.path.clone()).collect();
    let kept = coalesce_by_keys(events, keys);
    assert_eq!(
        kept,
        vec![
            ev("/w/a.txt", FileAction::Modify, Some("h1"), Some("/s/1")),
            ev("/w/b.txt", FileAction::Modify, Some("h2"), Some("/s/2")),
        ]
    );
}

#[test]
fn coalescing_prefers_a_copy_on_equal_quality() {
    let events = vec![
        ev("/w/c.txt", FileAction::Delete, Some("h"), None),
        ev("/w/c.txt", FileAction::Create, None, Some("/s/c")),
    ];
    let keys = events.iter().map(|e| e.path.clone()).collect();
    let kept = coalesce_by_keys(events, keys);
    assert_eq!(kept, vec![ev("/w/c.txt", FileAction::Create, None, Some("/s/c"))]);
    let events = vec![
        ev("/w/c.txt", FileAction::Create, None, Some("/s/c")),
        ev("/w/c.txt", FileAction::Delete, Some("h"), None),
    ];
    let keys = events.iter().map(|e| e.path.clone()).collect();
    let kept = coalesce_by_keys(events, keys);
    assert_eq!(kept, vec![ev("/w/c.txt", FileAction::Create, None, Some("/s/c"))]);
}

#[test]
fn coalescing_orders_by_path_components() {
    let events = vec![
        ev("/w/dir.txt", FileAction::Create, None, None),
        ev("/w/dir/x", FileAction::Create, None, None),
    ];
    let kept = coalesce_events(events);
    let paths: Vec<&str> = kept.iter().map(|e| e.path.as_str()).collect();
    assert_eq!(paths, vec!["/w/dir/x", "/w/dir.txt"]);
}

#[test]
fn snapshot_needs_watching_and_pending_changes() {
    assert!(require_watching(true).is_ok());
    assert!(snapshot_msg(require_watching(false)).contains("监控未启动"));
    assert!(require_pending(2).is_ok());
    assert!(snapshot_msg(require_pending(0)).contains("暂无待提交"));
}

#[test]
fn create_snapshot_rejects_empty_folder_without_changes() {
    // Watching an empty folder queues nothing: the snapshot is refused.
    assert!(require_watching(true).is_ok());
    let events = coalesce_events(Vec::new());
    let err = require_pending(events.len()).unwrap_err();
    let msg = err.message();
    assert!(msg.contains("暂无待提交"), "expected empty-queue error, got: {msg}");
}

#[test]
fn new_snapshot_is_active() {
    let row = new_snapshot_row("before edit".into()).unwrap();
    assert_eq!(row.description, "before edit");
    assert_eq!(row.status, "active");
    assert!(row.timestamp.contains('T') && row.timestamp.ends_with("+00:00"), "got {}", row.timestamp);
    let fixed = snapshot_row_at("d".into(), Some("1996-12-19T16:39:57+00:00".into())).unwrap();
    assert_eq!(fixed.timestamp, "1996-12-19T16:39:57+00:00");
    assert_eq!(fixed.status, "active");
    assert_eq!(snapshot_msg(snapshot_row_at("d".into(), None)), "system time before Unix epoch");
    assert_eq!(snapshot_dir_name(12), "12");
}

#[test]
fn copies_for_recorded_changes() {
    assert_eq!(backup_source(Some("/s/h_a".into()), FileAction::Modify, false), BackupSource::Staged("/s/h_a".into()));
    assert_eq!(backup_source(None, FileAction::Create, true), BackupSource::CopyCurrent);
    assert_eq!(backup_source(None, FileAction::Create, false), BackupSource::NoCopy);
    assert_eq!(backup_source(None, FileAction::Delete, true), BackupSource::NoCopy);
    assert!(require_copy(FileAction::Create, false, "/w/a").is_ok());
    assert!(require_copy(FileAction::Delete, true, "/w/a").is_ok());
    assert_eq!(
        snapshot_msg(require_copy(FileAction::Modify, false, "/w/a")),
        "无法为 /w/a 创建可回滚快照：缺少文件备份（删除前请先打开或修改该文件）"
    );
}

#[test]
fn snapshot_kept_or_discarded() {
    assert_eq!(
        commit_snapshot(4, &vec![true, false, true], None),
        SnapshotCommit::Keep { snapshot_id: 4, file_count: 2 }
    );
    match commit_snapshot(4, &vec![false, false], None) {
        SnapshotCommit::Discard(OpenRollbackError::Snapshot(m)) => assert_eq!(
            m,
            "所有 2 个变更均无法备份，无法创建可回滚快照（请确认在点击 WATCH 之后再删除文件）"
        ),
        other => panic!("unexpected {other:?}"),
    }
    let truncated = Some(PrefetchResult { cached: 10000, total_candidates: 20000, truncated: true });
    match commit_snapshot(4, &vec![false], truncated) {
        SnapshotCommit::Discard(OpenRollbackError::Snapshot(m)) => {
            assert!(m.contains("部分文件未预缓存"))
        }
        other => panic!("unexpected {other:?}"),
    }
}

#[test]
fn rollback_start_checks() {
    assert_eq!(snapshot_msg(begin_rollback(7, None)), "snapshot 7 not found");
    assert_eq!(snapshot_msg(begin_rollback(7, Some(record(7, "rolled_back")))), "snapshot 7 already rolled back");
    assert_eq!(begin_rollback(7, Some(record(7, "active"))), Ok(record(7, "active")));
    assert_eq!(snapshot_msg(require_changes(3, 0)), "快照 #3 无文件变更记录，无法回滚");
    assert!(require_changes(3, 1).is_ok());
}

#[test]
fn database_answers() {
    assert_eq!(snapshot_not_found(-1), OpenRollbackError::Snapshot("snapshot -1 not found".into()));
    assert_eq!(require_snapshot(2, Some(record(2, "active"))), Ok(record(2, "active")));
    assert_eq!(snapshot_msg(require_snapshot(2, None)), "snapshot 2 not found");
    assert!(require_rows_changed(2, 1).is_ok());
    assert_eq!(snapshot_msg(require_rows_changed(2, 0)), "snapshot 2 not found");
}

#[test]
fn rollback_undoes_newest_first() {
    let changes = vec![change(1, "create", None), change(2, "modify", Some("/b/2")), change(3, "delete", Some("/b/3"))];
    let order: Vec<i64> = rollback_order(changes).iter().map(|c| c.id).collect();
    assert_eq!(order, vec![3, 2, 1]);
}

#[test]
fn rollback_steps_invert_changes() {
    assert_eq!(change_action(&change(1, "create", None)), Ok(FileAction::Create));
    assert_eq!(snapshot_msg(change_action(&change(1, "rename", None))), "unknown action: rename");
    assert_eq!(created_file_step(true), RollbackStep::RemoveCreated);
    assert_eq!(created_file_step(false), RollbackStep::SkipCreatedGone);
    assert_eq!(recorded_file_step(None), RollbackStep::SkipNoBackup);
    assert_eq!(recorded_file_step(Some(false)), RollbackStep::SkipBackupLost);
    assert_eq!(recorded_file_step(Some(true)), RollbackStep::RestoreBackup);
    assert_eq!(step_outcome(RollbackStep::RestoreBackup, FileAction::Delete), ChangeOutcome::RestoredDelete);
    assert_eq!(step_outcome(RollbackStep::RestoreBackup, FileAction::Modify), ChangeOutcome::RestoredModify);
    assert_eq!(step_outcome(RollbackStep::RemoveCreated, FileAction::Create), ChangeOutcome::Removed);
    assert!(require_restored(true, "/w/a").is_ok());
    assert_eq!(snapshot_msg(require_restored(false, "/w/a")), "恢复后文件仍不存在: /w/a");
    assert_eq!(detail_line(ChangeOutcome::Removed, "/w/a"), "已撤销新建: /w/a");
    assert_eq!(detail_line(ChangeOutcome::BackupLost, "/w/a"), "无法恢复（备份文件丢失）: /w/a");
    assert_eq!(undo_outcome(FileAction::Create, true, Some(true)), ChangeOutcome::Removed);
    assert_eq!(undo_outcome(FileAction::Create, false, None), ChangeOutcome::CreatedGone);
    assert_eq!(undo_outcome(FileAction::Delete, true, Some(false)), ChangeOutcome::BackupLost);
    assert_eq!(undo_outcome(FileAction::Delete, false, Some(true)), ChangeOutcome::RestoredDelete);
    assert_eq!(undo_outcome(FileAction::Modify, false, None), ChangeOutcome::NoBackup);
}

#[test]
fn finished_rollback_counts_every_change() {
    let changes = vec![change(1, "create", None), change(2, "modify", Some("/b/2")), change(3, "delete", None)];
    let mut progress = RollbackProgress::new();
    progress.note_change(FileAction::Delete, false, None, "/w/f3".into());
    progress.note_change(FileAction::Modify, false, Some(true), "/w/f2".into());
    progress.note_change(FileAction::Create, true, None, "/w/f1".into());
    assert_eq!(progress.len(), 3);
    let result = finish_rollback(&changes, &progress).unwrap();
    assert_eq!((result.restored, result.removed, result.skipped), (1, 1, 1));
    assert_eq!(
        result.details,
        vec!["无法恢复（无备份）: /w/f3", "已恢复修改: /w/f2", "已撤销新建: /w/f1"]
    );
}

#[test]
fn rollback_that_restores_nothing_fails() {
    let changes = vec![change(1, "create", None), change(2, "delete", None)];
    let mut progress = RollbackProgress::new();
    progress.note_change(FileAction::Delete, false, None, "/w/f2".into());
    progress.note_change(FileAction::Create, true, None, "/w/f1".into());
    assert_eq!(
        snapshot_msg(finish_rollback(&changes, &progress)),
        "未能恢复任何文件。无法恢复（无备份）: /w/f2；已撤销新建: /w/f1"
    );
}

#[test]
fn rollback_without_effect_fails() {
    let changes = vec![change(1, "create", None)];
    let mut progress = RollbackProgress::new();
    progress.note_change(FileAction::Create, false, None, "/w/f1".into());
    assert_eq!(
        snapshot_msg(finish_rollback(&changes, &progress)),
        "回滚未产生任何效果。新建文件已不存在（跳过）: /w/f1"
    );
}
