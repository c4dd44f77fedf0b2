use openrollback::order::Sequenced;
use openrollback::action::FileAction;
use openrollback::events::{CachedFile, ContentCache, EventQueue, FileChangeEvent};
use openrollback::watch::{
    copy_name_for, delete_backup_plan, notify_step, order_prefetch_candidates, prefetch_entry_kind,
    prefetch_result, should_skip_prefetch_dir, snapshot_copy_name, str_eq_ignore_ascii_case,
    track_decision, tracked_event, AccessModeKind, DeleteBackup, NotifyKind, NotifyStep,
    PrefetchCandidate, PrefetchEntry, PrefetchResult, PREFETCH_MAX_FILES,
};
use openrollback::hash::sha256_hex;
use openrollback::watch::{change_for_plan, plan_notify_path, PathPlan};

fn event(path: &str, action: FileAction) -> FileChangeEvent {
    FileChangeEvent { path: path.to_string(), action, original_hash: None, staging_backup: None }
}

#[test]
fn push_and_drain_queue() {
    let dir = tempfile::tempdir().unwrap();
    let mut queue = EventQueue::new();
    queue.push_event(FileChangeEvent {
        path: dir.path().join("a.txt").to_string_lossy().into_owned(),
        action: FileAction::Create,
        original_hash: None,
        staging_backup: None,
    });

    assert_eq!(queue.len(), 1);
    let events = queue.drain();
    assert_eq!(events.len(), 1);
    assert_eq!(queue.len(), 0);
}

#[test]
fn drain_returns_events_oldest_first() {
    let mut queue = EventQueue::new();
    queue.push_event(event("/w/a", FileAction::Create));
    queue.push_event(event("/w/b", FileAction::Modify));
    queue.push_event(event("/w/c", FileAction::Delete));
    let drained = queue.drain();
    let paths: Vec<&str> = drained.iter().map(|e| e.path.as_str()).collect();
    assert_eq!(paths, vec!["/w/a", "/w/b", "/w/c"]);
    assert!(queue.drain().is_empty());
}

#[test]
fn cache_lookup_gives_back_latest_copy() {
    let mut cache = ContentCache::new();
    assert_eq!(cache.get("/w/a.txt"), None);
    let first = CachedFile { hash: "h1".into(), staging_backup: "/s/h1_a.txt".into() };
    let second = CachedFile { hash: "h2".into(), staging_backup: "/s/h2_a.txt".into() };
    cache.insert("/w/a.txt".into(), first.clone());
    cache.insert("/w/b.txt".into(), first.clone());
    assert_eq!(cache.len(), 2);
    cache.insert("/w/a.txt".into(), second.clone());
    assert_eq!(cache.len(), 2);
    assert_eq!(cache.get("/w/a.txt"), Some(second));
    assert_eq!(cache.get("/w/b.txt"), Some(first));
    assert_eq!(cache.get("/w/c.txt"), None);
}

#[test]
fn notify_kinds_sorted() {
    assert_eq!(notify_step(NotifyKind::AccessClose(AccessModeKind::Write)), NotifyStep::CacheOnClose);
    assert_eq!(notify_step(NotifyKind::AccessClose(AccessModeKind::Execute)), NotifyStep::Ignore);
    assert_eq!(notify_step(NotifyKind::CreateFile), NotifyStep::Track(FileAction::Create));
    assert_eq!(notify_step(NotifyKind::CreateFolder), NotifyStep::Ignore);
    assert_eq!(notify_step(NotifyKind::ModifyName), NotifyStep::Track(FileAction::Modify));
    assert_eq!(notify_step(NotifyKind::ModifyOther), NotifyStep::Ignore);
    assert_eq!(notify_step(NotifyKind::RemoveAny), NotifyStep::Track(FileAction::Delete));
    assert_eq!(notify_step(NotifyKind::RemoveFolder), NotifyStep::Ignore);
    assert_eq!(notify_step(NotifyKind::AccessOther), NotifyStep::Ignore);
}

#[test]
fn tracking_rules() {
    // staging area is never tracked
    assert!(!track_decision(FileAction::Delete, true, false, false, false, false));
    // directories are never tracked
    assert!(!track_decision(FileAction::Modify, false, true, true, true, false));
    // a deletion is always tracked
    assert!(track_decision(FileAction::Delete, false, false, false, false, false));
    // creation of something gone, or of a file
    assert!(track_decision(FileAction::Create, false, false, false, false, false));
    assert!(track_decision(FileAction::Create, false, true, false, true, true));
    assert!(!track_decision(FileAction::Create, false, true, false, true, false));
    // modification only of files
    assert!(track_decision(FileAction::Modify, false, true, false, false, true));
    assert!(!track_decision(FileAction::Modify, false, false, false, false, false));
}

#[test]
fn deleted_file_content_source() {
    let c = CachedFile { hash: "h".into(), staging_backup: "/s/h_x".into() };
    assert_eq!(delete_backup_plan(Some(c.clone()), false), DeleteBackup::FromCache(c));
    assert_eq!(delete_backup_plan(None, true), DeleteBackup::CopyNow);
    assert_eq!(delete_backup_plan(None, false), DeleteBackup::Missing);
}

#[test]
fn tracked_event_carries_copy() {
    let c = CachedFile { hash: "h".into(), staging_backup: "/s/h_x".into() };
    let e = tracked_event("/w/x".into(), FileAction::Modify, Some(c));
    assert_eq!(e.original_hash.as_deref(), Some("h"));
    assert_eq!(e.staging_backup.as_deref(), Some("/s/h_x"));
    let e = tracked_event("/w/y".into(), FileAction::Create, None);
    assert_eq!(e, event("/w/y", FileAction::Create));
}

#[test]
fn copy_names() {
    let (hash, name) = copy_name_for(b"hello", Some("doc.txt"));
    assert_eq!(hash, sha256_hex(b"hello"));
    assert_eq!(name, format!("{hash}_doc.txt"));
    let (_, name) = copy_name_for(b"x", None);
    assert!(name.ends_with("_unknown"));
    assert_eq!(snapshot_copy_name(Some("abc_doc.txt".into())), "abc_doc.txt");
    assert_eq!(snapshot_copy_name(None), "backup.bin");
}

#[test]
fn skipped_directories_ignore_ascii_case() {
    assert!(should_skip_prefetch_dir("node_modules"));
    assert!(should_skip_prefetch_dir("NODE_MODULES"));
    assert!(should_skip_prefetch_dir(".Git"));
    assert!(should_skip_prefetch_dir("$recycle.bin"));
    assert!(should_skip_prefetch_dir("system volume information"));
    assert!(!should_skip_prefetch_dir("src"));
    assert!(!should_skip_prefetch_dir("targets"));
    assert!(str_eq_ignore_ascii_case("ÄbC", "Äbc"));
    assert!(!str_eq_ignore_ascii_case("äbc", "Äbc"));
}

#[test]
fn prefetch_entries() {
    assert_eq!(prefetch_entry_kind(true, true, false, "x"), PrefetchEntry::InStaging);
    assert_eq!(prefetch_entry_kind(false, true, false, "target"), PrefetchEntry::SkippedDir);
    assert_eq!(prefetch_entry_kind(false, true, false, "docs"), PrefetchEntry::Descend);
    assert_eq!(prefetch_entry_kind(false, false, true, "a.txt"), PrefetchEntry::File);
    assert_eq!(prefetch_entry_kind(false, false, false, "sock"), PrefetchEntry::Other);
}

fn cand(path: &str, mtime: i128, priority: u8) -> PrefetchCandidate {
    PrefetchCandidate { path: path.to_string(), mtime_nanos: mtime, priority }
}

#[test]
fn cache_order_newest_then_priority_then_path() {
    let input = vec![
        cand("/w/b", 10, 0),
        cand("/w/a", 10, 0),
        cand("/w/old", 1, 2),
        cand("/w/new", 50, 0),
        cand("/w/root", 10, 2),
    ];
    let ordered = order_prefetch_candidates(&input);
    let paths: Vec<&str> = ordered.iter().map(|c| c.path.as_str()).collect();
    assert_eq!(paths, vec!["/w/new", "/w/root", "/w/a", "/w/b", "/w/old"]);
}

#[test]
fn cache_order_cut_at_limit() {
    let input: Vec<PrefetchCandidate> =
        (0..(PREFETCH_MAX_FILES as i128 + 5)).map(|i| cand(&format!("/w/{i}"), i, 0)).collect();
    let ordered = order_prefetch_candidates(&input);
    assert_eq!(ordered.len(), PREFETCH_MAX_FILES);
    assert_eq!(ordered[0].mtime_nanos, PREFETCH_MAX_FILES as i128 + 4);
    assert_eq!(ordered[PREFETCH_MAX_FILES - 1].mtime_nanos, 5);
}

#[test]
fn prefetch_summary() {
    assert_eq!(
        prefetch_result(3, &vec![true, false, true]),
        PrefetchResult { cached: 2, total_candidates: 3, truncated: false }
    );
    let cut = prefetch_result(PREFETCH_MAX_FILES + 1, &vec![true; PREFETCH_MAX_FILES]);
    assert!(cut.truncated);
    assert_eq!(cut.cached, PREFETCH_MAX_FILES);
    assert!(!prefetch_result(PREFETCH_MAX_FILES, &vec![false; PREFETCH_MAX_FILES]).truncated);
    assert_eq!(PrefetchResult::default(), PrefetchResult { cached: 0, total_candidates: 0, truncated: false });
}

#[test]
fn staging_dir_is_in_staging() {
    assert!(openrollback::watch::path_in_staging("/w/.openrollback/staging", "/w/.openrollback/staging"));
    assert!(openrollback::watch::path_in_staging("/w/.openrollback/staging/a.txt", "/w/.openrollback/staging"));
    assert!(!openrollback::watch::path_in_staging("/w/stagingx/a.txt", "/w/staging"));
}

#[test]
fn change_never_precedes_same_path() {
    let a = event("/w/a.txt", FileAction::Create);
    let b = event("/w/b.txt", FileAction::Delete);
    assert!(!a.precedes(&a));
    assert!(a.precedes(&b));
    assert!(!b.precedes(&a));
}

#[test]
fn deleting_a_cached_file_queues_its_copy() {
    let missing = "/openrollback-missing-dir/deleted.txt";
    let mut cache = ContentCache::new();
    let c = CachedFile { hash: "h0".into(), staging_backup: "/s/h0_deleted.txt".into() };
    cache.insert(missing.to_string(), c.clone());
    let plan = plan_notify_path(NotifyKind::RemoveFile, missing, "/openrollback-missing-dir/.staging", &cache);
    assert_eq!(plan, PathPlan::Delete(missing.to_string(), DeleteBackup::FromCache(c.clone())));
    let other = CachedFile { hash: "zz".into(), staging_backup: "/s/zz".into() };
    assert_eq!(
        change_for_plan(plan, Some(other)),
        Some(FileChangeEvent {
            path: missing.to_string(),
            action: FileAction::Delete,
            original_hash: Some("h0".into()),
            staging_backup: Some("/s/h0_deleted.txt".into()),
        })
    );
    let uncached = plan_notify_path(NotifyKind::RemoveAny, missing, "/s", &ContentCache::new());
    assert_eq!(uncached, PathPlan::Delete(missing.to_string(), DeleteBackup::Missing));
}

#[test]
fn notify_plans_skip_staging_and_ignored_kinds() {
    let cache = ContentCache::new();
    let staging = "/openrollback-missing-dir/.staging";
    assert_eq!(plan_notify_path(NotifyKind::RemoveFile, staging, staging, &cache), PathPlan::Skip);
    assert_eq!(plan_notify_path(NotifyKind::ModifyData, staging, staging, &cache), PathPlan::Skip);
    assert_eq!(plan_notify_path(NotifyKind::CreateFolder, "/openrollback-missing-dir/x", staging, &cache), PathPlan::Skip);
    assert_eq!(
        plan_notify_path(NotifyKind::CreateFile, "/openrollback-missing-dir/new.txt", staging, &cache),
        PathPlan::Create("/openrollback-missing-dir/new.txt".to_string())
    );
    let created = change_for_plan(PathPlan::Create("/w/n".into()), None).unwrap();
    assert_eq!(created.original_hash, None);
    assert_eq!(created.staging_backup, None);
    assert_eq!(change_for_plan(PathPlan::Skip, None), None);
    assert_eq!(change_for_plan(PathPlan::CacheOnClose("/w/n".into()), None), None);
}

#[test]
fn modification_keeps_content_from_before_the_change() {
    // A regular file that exists on every Linux system.
    let p = "/proc/self/status";
    let mut cache = ContentCache::new();
    let before = CachedFile { hash: "h-before".into(), staging_backup: "/s/h-before_edited.txt".into() };
    cache.insert(p.to_string(), before.clone());
    let plan = plan_notify_path(NotifyKind::ModifyData, p, "/openrollback-missing-dir/.staging", &cache);
    match &plan {
        PathPlan::Modify(n, cached) => {
            assert!(n.ends_with("/status") && n.starts_with("/proc/"), "got {n}");
            assert_eq!(cached, &Some(before.clone()));
        }
        other => panic!("expected a modification, got {other:?}"),
    }
    let after = CachedFile { hash: "h-after".into(), staging_backup: "/s/h-after_edited.txt".into() };
    let change = change_for_plan(plan, Some(after.clone())).unwrap();
    assert_eq!(change.original_hash, Some("h-before".to_string()));
    assert_eq!(change.staging_backup, Some("/s/h-before_edited.txt".to_string()));
    let fresh = change_for_plan(PathPlan::Modify(p.to_string(), None), Some(after)).unwrap();
    assert_eq!(fresh.original_hash, Some("h-after".to_string()));
}

#[test]
fn nothing_under_staging_is_queued() {
    let cache = ContentCache::new();
    let staging = "/openrollback-missing-dir/.staging";
    let inside = "/openrollback-missing-dir/.staging/h_a.txt";
    assert!(openrollback::watch::path_in_staging(inside, staging));
    assert_eq!(plan_notify_path(NotifyKind::RemoveFile, inside, staging, &cache), PathPlan::Skip);
    assert_eq!(plan_notify_path(NotifyKind::CreateFile, inside, staging, &cache), PathPlan::Skip);
    assert!(!openrollback::watch::should_track_path(inside, FileAction::Delete, staging));
}

#[test]
fn candidate_priorities() {
    use_candidate("/r/a.png", "/r", "/r", 2);
    use_candidate("/r/sub/b.png", "/r/sub", "/r", 0);
    assert_eq!(openrollback::watch::prefetch_candidate("/r/big".into(), "/r", "/r", 52428801, 0), None);
}

fn use_candidate(path: &str, dir: &str, root: &str, priority: u8) {
    let c = openrollback::watch::prefetch_candidate(path.into(), dir, root, 10, 5).unwrap();
    assert_eq!(c.priority, priority);
    assert_eq!(c.mtime_nanos, 5);
}

#[test]
fn watch_state_lists_the_watched_path() {
    let mut st = openrollback::watch::WatchState::new();
    assert!(!st.is_watching());
    assert!(st.paths().is_empty());
    let p = PrefetchResult { cached: 1, total_candidates: 2, truncated: false };
    st.started("/w/project".into(), p);
    assert!(st.is_watching());
    assert_eq!(st.paths(), vec!["/w/project".to_string()]);
    assert_eq!(st.prefetch(), Some(p));
    st.stop();
    assert!(!st.is_watching());
    assert!(st.paths().is_empty());
    assert_eq!(st.prefetch(), None);
}
