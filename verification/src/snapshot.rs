//! What the snapshot engine decides: which queued changes a snapshot keeps,
//! when a snapshot may be created or must be discarded, and how a rollback
//! undoes a snapshot's changes.

use vstd::prelude::*;
use crate::action::FileAction;
use crate::events::FileChangeEvent;
use crate::order::{Sequenced, sort_items, sorted_adjacent};
use crate::paths::{normalize_fs_path, is_normalized_form};
use crate::text::{str_eq, concat2, concat3, i64_text, usize_text, join_strings, spec_int_text, spec_decimal, spec_join, views};
use crate::error::OpenRollbackError;
use crate::records::{SnapshotRecord, FileChangeRecord, fails_with, is_snapshot_error, snapshot_not_found,
    spec_not_found_message, status_active, status_rolled_back};
use crate::watch::PrefetchResult;

verus! {

/// How much a queued event is worth keeping: deletions over modifications
/// over creations, plus 4 for a content copy and 2 for a content hash.
pub open spec fn spec_event_quality(ev: FileChangeEvent) -> u8 {
    let base: u8 = match ev.action {
        FileAction::Create => 1u8,
        FileAction::Modify => 2u8,
        FileAction::Delete => 3u8,
    };
    let with_copy: u8 = if ev.staging_backup is Some { (base + 4) as u8 } else { base };
    if ev.original_hash is Some { (with_copy + 2) as u8 } else { with_copy }
}

/// Scores a queued event for coalescing.
pub fn event_quality(ev: &FileChangeEvent) -> (q: u8)
    ensures
        q == spec_event_quality(*ev),
        1 <= q <= 9,
{
    let mut q: u8 = match ev.action {
        FileAction::Create => 1,
        FileAction::Modify => 2,
        FileAction::Delete => 3,
    };
    if ev.staging_backup.is_some() {
        q = q + 4;
    }
    if ev.original_hash.is_some() {
        q = q + 2;
    }
    q
}

/// Changes are ordered by path: `a` may stand before `b` unless `b`'s path
/// sorts before `a`'s.
impl Sequenced for FileChangeEvent {
    open spec fn key_le(self, other: Self) -> bool {
        !crate::watch::spec_path_less(other.path@, self.path@)
    }

    fn precedes(&self, other: &Self) -> (r: bool)
        ensures
            r == crate::watch::spec_path_less(self.path@, other.path@),
            self.path@ == other.path@ ==> !r,
    {
        crate::watch::path_less(self.path.as_str(), other.path.as_str())
    }

    fn duplicate(&self) -> (r: Self) {
        self.copy()
    }
}

/// A group of queued events for one key, represented by its best event.
pub type Group = (Seq<char>, FileChangeEvent);

/// The last position of a key among groups, or -1.
pub open spec fn find_group(groups: Seq<Group>, key: Seq<char>) -> int
    decreases groups.len(),
{
    if groups.len() == 0 {
        -1
    } else if groups.last().0 == key {
        groups.len() - 1
    } else {
        find_group(groups.drop_last(), key)
    }
}

/// Whether `ev` should replace `kept` as a group's event: it is of higher
/// quality, or of equal quality and carries a content copy that `kept`
/// lacks (records with a copy are preferred).
pub open spec fn replaces(ev: FileChangeEvent, kept: FileChangeEvent) -> bool {
    spec_event_quality(ev) > spec_event_quality(kept) || (spec_event_quality(ev) == spec_event_quality(kept)
        && ev.staging_backup is Some && kept.staging_backup is None)
}

/// Adds one event under its key: a new key opens a group; an event that
/// `replaces` the group's event takes its place (higher quality, or equal
/// quality with a copy where the kept one has none); otherwise the group
/// keeps its event.
pub open spec fn coalesce_step(groups: Seq<Group>, key: Seq<char>, ev: FileChangeEvent) -> Seq<Group> {
    let i = find_group(groups, key);
    if i < 0 {
        groups.push((key, ev))
    } else if replaces(ev, groups[i].1) {
        groups.update(i, (key, ev))
    } else {
        groups
    }
}

/// The groups that a list of events under a list of keys forms, in the
/// order their keys first occur.
pub open spec fn spec_groups(events: Seq<FileChangeEvent>, keys: Seq<Seq<char>>) -> Seq<Group>
    decreases events.len(),
{
    if events.len() == 0 || keys.len() == 0 {
        Seq::empty()
    } else {
        coalesce_step(spec_groups(events.drop_last(), keys.drop_last()), keys.last(), events.last())
    }
}

/// The events the groups keep.
pub open spec fn group_events(groups: Seq<Group>) -> Seq<FileChangeEvent> {
    groups.map_values(|g: Group| g.1)
}

proof fn lemma_find_group(groups: Seq<Group>, key: Seq<char>)
    ensures
        -1 <= find_group(groups, key) < groups.len(),
        find_group(groups, key) >= 0 ==> groups[find_group(groups, key)].0 == key,
        find_group(groups, key) < 0 ==> forall|j: int| 0 <= j < groups.len() ==> groups[j].0 != key,
    decreases groups.len(),
{
    if groups.len() > 0 && groups.last().0 != key {
        lemma_find_group(groups.drop_last(), key);
        if find_group(groups, key) < 0 {
            assert forall|j: int| 0 <= j < groups.len() implies groups[j].0 != key by {
                if j < groups.len() - 1 {
                    assert(groups.drop_last()[j] == groups[j]);
                }
            }
        }
    }
}

fn find_group_exec(groups: &Vec<(String, FileChangeEvent)>, key: &str) -> (r: Option<usize>)
    ensures
        r matches Some(i) ==> i < groups.len() && find_group(views_of_groups(groups@), key@) == i,
        r is None ==> find_group(views_of_groups(groups@), key@) == -1,
{
    let ghost g = views_of_groups(groups@);
    let mut n: usize = groups.len();
    assert(g.take(n as int) =~= g);
    while n > 0
        invariant
            n <= groups.len(),
            g == views_of_groups(groups@),
            find_group(g, key@) == find_group(g.take(n as int), key@),
        decreases n,
    {
        let ghost t = g.take(n as int);
        assert(t.drop_last() =~= g.take(n - 1));
        if str_eq(groups[n - 1].0.as_str(), key) {
            return Some(n - 1);
        }
        n = n - 1;
    }
    None
}

/// The view of exec groups.
pub open spec fn views_of_groups(groups: Seq<(String, FileChangeEvent)>) -> Seq<Group> {
    groups.map_values(|g: (String, FileChangeEvent)| (g.0@, g.1))
}

/// Merges events that share a key into one, keeping per key an event of
/// the highest quality, one with a content copy when any has one; the kept
/// events are then sorted by path.
pub fn coalesce_by_keys(events: Vec<FileChangeEvent>, keys: Vec<String>) -> (r: Vec<FileChangeEvent>)
    requires
        events.len() == keys.len(),
    ensures
        sorted_adjacent(r@),
        r@.to_multiset() == group_events(spec_groups(events@, crate::text::views(keys@))).to_multiset(),
        r@.len() == spec_groups(events@, crate::text::views(keys@)).len(),
{
    let ghost kv = crate::text::views(keys@);
    let mut groups: Vec<(String, FileChangeEvent)> = Vec::new();
    let mut i: usize = 0;
    while i < events.len()
        invariant
            0 <= i <= events.len(),
            events.len() == keys.len(),
            kv == crate::text::views(keys@),
            views_of_groups(groups@) == spec_groups(events@.take(i as int), kv.take(i as int)),
        decreases events.len() - i,
    {
        let ev = events[i].copy();
        let key = keys[i].clone();
        let ghost before = views_of_groups(groups@);
        proof {
            assert(events@.take(i + 1).drop_last() =~= events@.take(i as int));
            assert(kv.take(i + 1).drop_last() =~= kv.take(i as int));
            assert(kv.take(i + 1).last() == keys@[i as int]@);
            lemma_find_group(before, key@);
        }
        match find_group_exec(&groups, key.as_str()) {
            None => {
                groups.push((key, ev));
                assert(views_of_groups(groups@) =~= before.push((keys@[i as int]@, events@[i as int])));
            },
            Some(j) => {
                let q_new = event_quality(&ev);
                let q_old = event_quality(&groups[j].1);
                if q_new > q_old || (q_new == q_old && ev.staging_backup.is_some()
                    && groups[j].1.staging_backup.is_none()) {
                    let mut taken: Vec<(String, FileChangeEvent)> = Vec::new();
                    std::mem::swap(&mut taken, &mut groups);
                    taken.set(j, (key, ev));
                    groups = taken;
                    assert(views_of_groups(groups@) =~= before.update(j as int, (keys@[i as int]@, events@[i as int])));
                }
            },
        }
        i = i + 1;
    }
    assert(events@.take(events.len() as int) =~= events@);
    assert(kv.take(keys.len() as int) =~= kv);
    let mut kept: Vec<FileChangeEvent> = Vec::new();
    let mut k: usize = 0;
    while k < groups.len()
        invariant
            0 <= k <= groups.len(),
            kept@ == group_events(views_of_groups(groups@)).take(k as int),
        decreases groups.len() - k,
    {
        kept.push(groups[k].1.copy());
        assert(group_events(views_of_groups(groups@)).take(k + 1) =~= group_events(views_of_groups(groups@)).take(k as int).push(groups@[k as int].1));
        k = k + 1;
    }
    assert(group_events(views_of_groups(groups@)).take(groups.len() as int) =~= group_events(views_of_groups(groups@)));
    sort_items(&kept)
}


/// No two groups share a key.
pub open spec fn keys_distinct(g: Seq<Group>) -> bool {
    forall|a: int, b: int| 0 <= a < g.len() && 0 <= b < g.len() && a != b ==> #[trigger] g[a].0 != #[trigger] g[b].0
}

/// The groups of `events` under `keys` are sound: one group per key; every
/// event's key has a group whose event is at least as good, and carries a
/// content copy if that event does; every kept event is one of the events
/// under its key.
pub open spec fn groups_sound(events: Seq<FileChangeEvent>, keys: Seq<Seq<char>>, g: Seq<Group>) -> bool {
    &&& keys_distinct(g)
    &&& forall|i: int| 0 <= i < events.len() ==> find_group(g, #[trigger] keys[i]) >= 0
        && spec_event_quality(events[i]) <= spec_event_quality(g[find_group(g, keys[i])].1)
        && (events[i].staging_backup is Some ==> g[find_group(g, keys[i])].1.staging_backup is Some)
    &&& forall|j: int| 0 <= j < g.len() ==> #[trigger] kept_from_input(events, keys, g[j])
}

/// Group `gj` keeps one of the events, under that event's key.
pub open spec fn kept_from_input(events: Seq<FileChangeEvent>, keys: Seq<Seq<char>>, gj: Group) -> bool {
    exists|i: int| 0 <= i < events.len() && keys[i] == gj.0 && #[trigger] events[i] == gj.1
}

proof fn lemma_find_unique(g: Seq<Group>, key: Seq<char>, j: int)
    requires
        keys_distinct(g),
        0 <= j < g.len(),
        g[j].0 == key,
    ensures
        find_group(g, key) == j,
{
    lemma_find_group(g, key);
    let f = find_group(g, key);
    if f != j {
        assert(g[f].0 == g[j].0);
    }
}

/// Coalescing keeps one change per file, and the kept change is a change
/// of that file at least as good as any other change of it, with a content
/// copy whenever any change of that file has one.
#[verifier::rlimit(40)]
pub proof fn lemma_coalesce_sound(events: Seq<FileChangeEvent>, keys: Seq<Seq<char>>)
    requires
        events.len() == keys.len(),
    ensures
        groups_sound(events, keys, spec_groups(events, keys)),
    decreases events.len(),
{
    if events.len() == 0 {
        return;
    }
    let pe = events.drop_last();
    let pk = keys.drop_last();
    lemma_coalesce_sound(pe, pk);
    let g = spec_groups(pe, pk);
    let k = keys.last();
    let ev = events.last();
    let n = events.len() - 1;
    let g2 = spec_groups(events, keys);
    assert(g2 == coalesce_step(g, k, ev));
    lemma_find_group(g, k);
    let f = find_group(g, k);
    // keys stay distinct
    assert(keys_distinct(g2)) by {
        if f < 0 {
            assert forall|a: int, b: int| 0 <= a < g2.len() && 0 <= b < g2.len() && a != b
                implies #[trigger] g2[a].0 != #[trigger] g2[b].0 by {
                if a < g.len() && b < g.len() {
                    assert(g[a].0 != g[b].0);
                }
            }
        } else {
            assert forall|a: int, b: int| 0 <= a < g2.len() && 0 <= b < g2.len() && a != b
                implies #[trigger] g2[a].0 != #[trigger] g2[b].0 by {
                assert(g2[a].0 == g[a].0);
                assert(g2[b].0 == g[b].0);
                assert(g[a].0 != g[b].0);
            }
        }
    }
    // every event's key has a group at least as good
    assert forall|i: int| 0 <= i < events.len() implies find_group(g2, #[trigger] keys[i]) >= 0
        && spec_event_quality(events[i]) <= spec_event_quality(g2[find_group(g2, keys[i])].1)
        && (events[i].staging_backup is Some ==> g2[find_group(g2, keys[i])].1.staging_backup is Some) by {
        if i == n {
            if f < 0 {
                lemma_find_unique(g2, k, g.len() as int);
            } else {
                assert(g2[f].0 == k);
                lemma_find_unique(g2, k, f);
            }
        } else {
            assert(pk[i] == keys[i]);
            assert(pe[i] == events[i]);
            let fi = find_group(g, keys[i]);
            assert(fi >= 0 && spec_event_quality(pe[i]) <= spec_event_quality(g[fi].1));
            assert(pe[i].staging_backup is Some ==> g[fi].1.staging_backup is Some);
            lemma_find_group(g, keys[i]);
            if f < 0 {
                assert(g2[fi] == g[fi]);
                lemma_find_unique(g2, keys[i], fi);
            } else {
                assert(g2[fi].0 == g[fi].0);
                lemma_find_unique(g2, keys[i], fi);
            }
        }
    }
    // every kept event is an event under its key
    assert forall|j: int| 0 <= j < g2.len() implies #[trigger] kept_from_input(events, keys, g2[j]) by {
        if (f < 0 && j == g.len()) || (f >= 0 && j == f && replaces(ev, g[f].1)) {
            assert(0 <= n < events.len() && keys[n] == g2[j].0 && events[n] == g2[j].1);
        } else {
            assert(g2[j] == g[j]);
            assert(kept_from_input(pe, pk, g[j]));
            let i = choose|i: int| 0 <= i < pe.len() && pk[i] == g[j].0 && #[trigger] pe[i] == g[j].1;
            assert(keys[i] == pk[i] && events[i] == pe[i]);
            assert(0 <= i < events.len() && keys[i] == g2[j].0 && events[i] == g2[j].1);
        }
    }
}

/// `keys` normalise the paths of `events`, and `kept` holds the events the
/// groups under those keys keep.
pub open spec fn coalesced_under(kept: Seq<FileChangeEvent>, events: Seq<FileChangeEvent>, keys: Seq<Seq<char>>) -> bool {
    &&& keys.len() == events.len()
    &&& forall|i: int| 0 <= i < keys.len() ==> #[trigger] is_normalized_form(keys[i], events[i].path@)
    &&& kept.to_multiset() == group_events(spec_groups(events, keys)).to_multiset()
}

/// Merges repeated notifications for the same file into one change: events
/// are grouped by their normalised path, each group keeps an event of the
/// highest quality, preferring one with a content copy, and the kept events
/// are sorted by path.
pub fn coalesce_events(events: Vec<FileChangeEvent>) -> (r: Vec<FileChangeEvent>)
    ensures
        sorted_adjacent(r@),
        exists|keys: Seq<Seq<char>>| #[trigger] coalesced_under(r@, events@, keys),
{
    let mut keys: Vec<String> = Vec::new();
    let mut i: usize = 0;
    while i < events.len()
        invariant
            0 <= i <= events.len(),
            keys.len() == i,
            forall|j: int| 0 <= j < i ==> #[trigger] is_normalized_form(keys@[j]@, events@[j].path@),
        decreases events.len() - i,
    {
        let key = normalize_fs_path(events[i].path.as_str());
        let ghost old_keys = keys@;
        keys.push(key);
        proof {
            assert forall|j: int| 0 <= j < i + 1 implies #[trigger] is_normalized_form(keys@[j]@, events@[j].path@) by {
                if j < i {
                    assert(keys@[j] == old_keys[j]);
                } else {
                    assert(keys@[j] == key);
                }
            }
        }
        i = i + 1;
    }
    let ghost kv = crate::text::views(keys@);
    let ghost evs = events@;
    let r = coalesce_by_keys(events, keys);
    assert forall|j: int| 0 <= j < kv.len() implies #[trigger] is_normalized_form(kv[j], evs[j].path@) by {
        assert(kv[j] == keys@[j]@);
    }
    assert(coalesced_under(r@, evs, kv));
    r
}


// ---------------------------------------------------------------------
// Creating a snapshot
// ---------------------------------------------------------------------

/// Message when a snapshot is asked for while nothing is watched.
pub open spec fn msg_not_watching() -> Seq<char> {
    "文件监控未启动，请先点击 WATCH 后再创建快照"@
}

/// Message when a snapshot is asked for with no pending change.
pub open spec fn msg_nothing_pending() -> Seq<char> {
    "监控目录中暂无待提交的文件变更，请先在目录内新建、修改或删除文件"@
}

/// A snapshot can only be taken while a directory is watched.
pub fn require_watching(is_watching: bool) -> (r: Result<(), OpenRollbackError>)
    ensures
        is_watching ==> r is Ok,
        !is_watching ==> fails_with(r, msg_not_watching()),
{
    if is_watching {
        Ok(())
    } else {
        Err(OpenRollbackError::Snapshot("文件监控未启动，请先点击 WATCH 后再创建快照".to_owned()))
    }
}

/// A snapshot needs at least one change after coalescing.
pub fn require_pending(count: usize) -> (r: Result<(), OpenRollbackError>)
    ensures
        count > 0 ==> r is Ok,
        count == 0 ==> fails_with(r, msg_nothing_pending()),
{
    if count > 0 {
        Ok(())
    } else {
        Err(OpenRollbackError::Snapshot(
            "监控目录中暂无待提交的文件变更，请先在目录内新建、修改或删除文件".to_owned(),
        ))
    }
}

/// The row a new snapshot is stored as.
#[derive(Debug, Clone, PartialEq, Eq)]
pub struct NewSnapshot {
    pub timestamp: String,
    pub description: String,
    pub status: String,
}

/// `std::time::SystemTime::now`, as whole seconds and nanoseconds since the
/// Unix epoch; `None` when the clock reads before the epoch. Claimed: the
/// nanoseconds are a fraction of a second (below one billion), as
/// `Duration::subsec_nanos` documents. Nothing more is stated: the answer
/// is the clock's.
#[verifier::external_body]
fn unix_time_now() -> (r: Option<(u64, u32)>)
    ensures
        r matches Some((_, n)) ==> n < 1_000_000_000,
{
    match std::time::SystemTime::now().duration_since(std::time::UNIX_EPOCH) {
        Ok(d) => Some((d.as_secs(), d.subsec_nanos())),
        Err(_) => None,
    }
}

/// The RFC 3339 text of the UTC time `secs` seconds and `nanos`
/// nanoseconds after the Unix epoch, as chrono writes it; `None` where
/// chrono has no such time.
pub uninterp spec fn spec_rfc3339_at(secs: i64, nanos: u32) -> Option<Seq<char>>;

/// `chrono::DateTime::from_timestamp`, written with `to_rfc3339`. Claimed:
/// the answer is the one named `spec_rfc3339_at` of the arguments.
#[verifier::external_body]
fn rfc3339_at(secs: i64, nanos: u32) -> (r: Option<String>)
    ensures
        crate::paths::opt_view(r) == spec_rfc3339_at(secs, nanos),
{
    chrono::DateTime::from_timestamp(secs, nanos).map(|t| t.to_rfc3339())
}

/// Message when the clock gives no usable time.
pub open spec fn msg_bad_clock() -> Seq<char> {
    "system time before Unix epoch"@
}

/// The row for a new snapshot at the given time (if it could be written):
/// the description and the status `active`; an error without a time.
pub fn snapshot_row_at(description: String, timestamp: Option<String>) -> (r: Result<NewSnapshot, OpenRollbackError>)
    ensures
        timestamp matches Some(t) ==> (r matches Ok(row) && row.timestamp == t && row.description == description
            && row.status@ == status_active()),
        timestamp is None ==> fails_with(r, msg_bad_clock()),
{
    match timestamp {
        Some(t) => Ok(NewSnapshot { timestamp: t, description, status: crate::records::active_status().to_owned() }),
        None => Err(OpenRollbackError::Snapshot("system time before Unix epoch".to_owned())),
    }
}

/// The row for a new snapshot: the current time in RFC 3339, the
/// description, and the status `active`; an error when the clock reads
/// before the Unix epoch or beyond what can be written.
pub fn new_snapshot_row(description: String) -> (r: Result<NewSnapshot, OpenRollbackError>)
    ensures
        r matches Ok(row) ==> row.description == description && row.status@ == status_active()
            && exists|secs: i64, nanos: u32| #[trigger] spec_rfc3339_at(secs, nanos) == Some(row.timestamp@),
        r is Err ==> fails_with(r, msg_bad_clock()),
{
    let timestamp = match unix_time_now() {
        Some((secs, nanos)) => {
            if secs <= i64::MAX as u64 {
                rfc3339_at(secs as i64, nanos)
            } else {
                None
            }
        },
        None => None,
    };
    snapshot_row_at(description, timestamp)
}

/// The directory name of a snapshot's backups: its id in decimal.
pub fn snapshot_dir_name(snapshot_id: i64) -> (r: String)
    ensures
        r@ == spec_int_text(snapshot_id as int),
{
    i64_text(snapshot_id)
}

/// Where the pre-change content of a recorded change comes from.
#[derive(Debug, Clone, PartialEq, Eq)]
pub enum BackupSource {
    /// The copy the watcher staged; it moves into the snapshot's directory.
    Staged(String),
    /// A created file that still exists: copy it now.
    CopyCurrent,
    /// No copy.
    NoCopy,
}

/// Chooses the copy for a change being stored: the staged one if any;
/// otherwise, for a created file that still exists, a fresh copy.
pub fn backup_source(staged: Option<String>, action: FileAction, exists_now: bool) -> (r: BackupSource)
    ensures
        staged matches Some(s) ==> r == BackupSource::Staged(s),
        staged is None && action == FileAction::Create && exists_now ==> r == BackupSource::CopyCurrent,
        staged is None && !(action == FileAction::Create && exists_now) ==> r == BackupSource::NoCopy,
{
    match staged {
        Some(s) => BackupSource::Staged(s),
        None => {
            if action == FileAction::Create && exists_now {
                BackupSource::CopyCurrent
            } else {
                BackupSource::NoCopy
            }
        },
    }
}

/// Message for a modified or deleted file without a copy.
pub open spec fn msg_missing_copy(path: Seq<char>) -> Seq<char> {
    "无法为 "@ + path + " 创建可回滚快照：缺少文件备份（删除前请先打开或修改该文件）"@
}

/// A modified or deleted file can only be recorded with a copy of its
/// earlier content; a creation needs none.
pub fn require_copy(action: FileAction, has_copy: bool, path: &str) -> (r: Result<(), OpenRollbackError>)
    ensures
        (action == FileAction::Create || has_copy) ==> r is Ok,
        !(action == FileAction::Create || has_copy) ==> fails_with(r, msg_missing_copy(path@)),
{
    if action == FileAction::Create || has_copy {
        Ok(())
    } else {
        Err(OpenRollbackError::Snapshot(concat3(
            "无法为 ",
            path,
            " 创建可回滚快照：缺少文件备份（删除前请先打开或修改该文件）",
        )))
    }
}

/// How many entries are true.
pub open spec fn count_true(s: Seq<bool>) -> nat
    decreases s.len(),
{
    if s.len() == 0 {
        0
    } else {
        count_true(s.drop_last()) + if s.last() { 1nat } else { 0nat }
    }
}

proof fn lemma_count_true_bound(s: Seq<bool>)
    ensures
        count_true(s) <= s.len(),
    decreases s.len(),
{
    if s.len() > 0 {
        lemma_count_true_bound(s.drop_last());
    }
}

/// What becomes of a snapshot once its changes were stored.
#[derive(Debug, Clone, PartialEq, Eq)]
pub enum SnapshotCommit {
    /// The snapshot stays, with this many recorded changes.
    Keep { snapshot_id: i64, file_count: i64 },
    /// No change could be recorded: the snapshot and its directory are
    /// removed and this error is reported.
    Discard(OpenRollbackError),
}

/// Message when no change of a snapshot could be recorded.
pub open spec fn msg_nothing_recorded(skipped: nat, truncated: bool) -> Seq<char> {
    "所有 "@ + spec_decimal(skipped) + " 个变更均无法备份，无法创建可回滚快照（"@ + (if truncated {
        "监控目录文件过多，部分文件未预缓存；建议监控更小的子文件夹"@
    } else {
        "请确认在点击 WATCH 之后再删除文件"@
    }) + "）"@
}

/// Whether the last cache run was cut by the cache limit.
pub open spec fn was_truncated(prefetch: Option<PrefetchResult>) -> bool {
    prefetch matches Some(p) && p.truncated
}

/// Decides a snapshot after storing its changes (`recorded[i]` tells
/// whether change `i` was recorded): kept with the number of recorded
/// changes, or discarded when none was.
pub fn commit_snapshot(snapshot_id: i64, recorded: &Vec<bool>, prefetch: Option<PrefetchResult>) -> (r: SnapshotCommit)
    requires
        recorded.len() <= i64::MAX,
    ensures
        count_true(recorded@) > 0 ==> r == (SnapshotCommit::Keep {
            snapshot_id,
            file_count: count_true(recorded@) as i64,
        }),
        count_true(recorded@) == 0 ==> (r matches SnapshotCommit::Discard(e) && is_snapshot_error(
            e,
            msg_nothing_recorded(recorded@.len(), was_truncated(prefetch)),
        )),
{
    let mut ok: usize = 0;
    let mut i: usize = 0;
    while i < recorded.len()
        invariant
            0 <= i <= recorded.len(),
            ok == count_true(recorded@.take(i as int)),
            ok <= i,
        decreases recorded.len() - i,
    {
        assert(recorded@.take(i + 1).drop_last() =~= recorded@.take(i as int));
        if recorded[i] {
            ok = ok + 1;
        }
        i = i + 1;
    }
    assert(recorded@.take(recorded.len() as int) =~= recorded@);
    if ok > 0 {
        SnapshotCommit::Keep { snapshot_id, file_count: ok as i64 }
    } else {
        let truncated = match prefetch {
            Some(p) => p.truncated,
            None => false,
        };
        let skipped = usize_text(recorded.len());
        let mut m = concat3("所有 ", skipped.as_str(), " 个变更均无法备份，无法创建可回滚快照（");
        if truncated {
            m.append("监控目录文件过多，部分文件未预缓存；建议监控更小的子文件夹");
        } else {
            m.append("请确认在点击 WATCH 之后再删除文件");
        }
        m.append("）");
        SnapshotCommit::Discard(OpenRollbackError::Snapshot(m))
    }
}

// ---------------------------------------------------------------------
// Rolling a snapshot back
// ---------------------------------------------------------------------

/// Message when a snapshot was already rolled back.
pub open spec fn msg_already_rolled_back(snapshot_id: i64) -> Seq<char> {
    "snapshot "@ + spec_int_text(snapshot_id as int) + " already rolled back"@
}

/// What starting a rollback of `snapshot_id` gives for the stored record.
pub open spec fn spec_begin_rollback(snapshot_id: i64, found: Option<SnapshotRecord>) -> Result<SnapshotRecord, Seq<char>> {
    match found {
        None => Err(spec_not_found_message(snapshot_id)),
        Some(s) => if s.status@ == status_rolled_back() {
            Err(msg_already_rolled_back(snapshot_id))
        } else {
            Ok(s)
        },
    }
}

/// Starts a rollback: the snapshot must exist and not be rolled back yet.
pub fn begin_rollback(snapshot_id: i64, found: Option<SnapshotRecord>) -> (r: Result<SnapshotRecord, OpenRollbackError>)
    ensures
        match spec_begin_rollback(snapshot_id, found) {
            Ok(s) => r == Ok::<SnapshotRecord, OpenRollbackError>(s),
            Err(m) => fails_with(r, m),
        },
{
    match found {
        None => Err(snapshot_not_found(snapshot_id)),
        Some(s) => {
            if s.status == crate::records::rolled_back_status().to_owned() {
                let id = i64_text(snapshot_id);
                Err(OpenRollbackError::Snapshot(concat3("snapshot ", id.as_str(), " already rolled back")))
            } else {
                Ok(s)
            }
        },
    }
}

/// Message when a snapshot has no recorded change.
pub open spec fn msg_no_changes(snapshot_id: i64) -> Seq<char> {
    "快照 #"@ + spec_int_text(snapshot_id as int) + " 无文件变更记录，无法回滚"@
}

/// A rollback needs at least one recorded change.
pub fn require_changes(snapshot_id: i64, count: usize) -> (r: Result<(), OpenRollbackError>)
    ensures
        count > 0 ==> r is Ok,
        count == 0 ==> fails_with(r, msg_no_changes(snapshot_id)),
{
    if count > 0 {
        Ok(())
    } else {
        let id = i64_text(snapshot_id);
        Err(OpenRollbackError::Snapshot(concat3("快照 #", id.as_str(), " 无文件变更记录，无法回滚")))
    }
}

/// The order in which a snapshot's changes are undone: newest first.
pub fn rollback_order(changes: Vec<FileChangeRecord>) -> (r: Vec<FileChangeRecord>)
    ensures
        r@ == changes@.reverse(),
{
    let mut rest = changes;
    let ghost all = rest@;
    let mut out: Vec<FileChangeRecord> = Vec::new();
    while rest.len() > 0
        invariant
            all == rest@ + out@.reverse(),
        decreases rest@.len(),
    {
        let ghost before = rest@;
        let ghost out_before = out@;
        match rest.pop() {
            Some(c) => {
                out.push(c);
                proof {
                    assert(out@.reverse() =~= seq![c] + out_before.reverse());
                    assert(before =~= rest@.push(c));
                    assert(all =~= rest@ + out@.reverse());
                }
            },
            None => {},
        }
    }
    assert(all =~= out@.reverse());
    assert(out@ =~= all.reverse());
    out
}

/// Message for a stored action that is not one of the three.
pub open spec fn msg_unknown_action(action: Seq<char>) -> Seq<char> {
    "unknown action: "@ + action
}

/// The action of a recorded change, or an error for an unknown one.
pub fn change_action(change: &FileChangeRecord) -> (r: Result<FileAction, OpenRollbackError>)
    ensures
        crate::action::spec_parse_action(change.action@) matches Some(a) ==> r == Ok::<FileAction, OpenRollbackError>(a),
        crate::action::spec_parse_action(change.action@) is None ==> fails_with(r, msg_unknown_action(change.action@)),
{
    match FileAction::parse(change.action.as_str()) {
        Some(a) => Ok(a),
        None => Err(OpenRollbackError::Snapshot(concat2("unknown action: ", change.action.as_str()))),
    }
}

/// What undoing one recorded change does.
#[derive(Debug, Clone, Copy, PartialEq, Eq, Structural)]
pub enum RollbackStep {
    /// Remove the file that was created.
    RemoveCreated,
    /// The created file is already gone: skip.
    SkipCreatedGone,
    /// No copy was recorded: skip.
    SkipNoBackup,
    /// The recorded copy is gone: skip.
    SkipBackupLost,
    /// Put the recorded copy back in place.
    RestoreBackup,
}

/// Undoing a creation removes the file if it is still there.
pub fn created_file_step(exists: bool) -> (r: RollbackStep)
    ensures
        exists ==> r == RollbackStep::RemoveCreated,
        !exists ==> r == RollbackStep::SkipCreatedGone,
{
    if exists { RollbackStep::RemoveCreated } else { RollbackStep::SkipCreatedGone }
}

/// Undoing a modification or deletion restores the recorded copy, if one
/// was recorded (`backup` is whether it still exists) and is still there.
pub fn recorded_file_step(backup: Option<bool>) -> (r: RollbackStep)
    ensures
        backup is None ==> r == RollbackStep::SkipNoBackup,
        backup == Some(false) ==> r == RollbackStep::SkipBackupLost,
        backup == Some(true) ==> r == RollbackStep::RestoreBackup,
{
    match backup {
        None => RollbackStep::SkipNoBackup,
        Some(false) => RollbackStep::SkipBackupLost,
        Some(true) => RollbackStep::RestoreBackup,
    }
}

/// Message when a restored file is still missing.
pub open spec fn msg_still_missing(path: Seq<char>) -> Seq<char> {
    "恢复后文件仍不存在: "@ + path
}

/// After restoring a copy the file must exist.
pub fn require_restored(exists_after: bool, path: &str) -> (r: Result<(), OpenRollbackError>)
    ensures
        exists_after ==> r is Ok,
        !exists_after ==> fails_with(r, msg_still_missing(path@)),
{
    if exists_after {
        Ok(())
    } else {
        Err(OpenRollbackError::Snapshot(concat2("恢复后文件仍不存在: ", path)))
    }
}

/// How undoing one change ended.
#[derive(Debug, Clone, Copy, PartialEq, Eq, Structural)]
pub enum ChangeOutcome {
    Removed,
    CreatedGone,
    NoBackup,
    BackupLost,
    RestoredModify,
    RestoredDelete,
}

/// The outcome a step ends with when it succeeds, for a change of `action`.
pub open spec fn spec_step_outcome(step: RollbackStep, action: FileAction) -> ChangeOutcome {
    match step {
        RollbackStep::RemoveCreated => ChangeOutcome::Removed,
        RollbackStep::SkipCreatedGone => ChangeOutcome::CreatedGone,
        RollbackStep::SkipNoBackup => ChangeOutcome::NoBackup,
        RollbackStep::SkipBackupLost => ChangeOutcome::BackupLost,
        RollbackStep::RestoreBackup => if action == FileAction::Delete {
            ChangeOutcome::RestoredDelete
        } else {
            ChangeOutcome::RestoredModify
        },
    }
}

/// The outcome of a step that succeeded.
pub fn step_outcome(step: RollbackStep, action: FileAction) -> (r: ChangeOutcome)
    ensures
        r == spec_step_outcome(step, action),
{
    match step {
        RollbackStep::RemoveCreated => ChangeOutcome::Removed,
        RollbackStep::SkipCreatedGone => ChangeOutcome::CreatedGone,
        RollbackStep::SkipNoBackup => ChangeOutcome::NoBackup,
        RollbackStep::SkipBackupLost => ChangeOutcome::BackupLost,
        RollbackStep::RestoreBackup => if action == FileAction::Delete {
            ChangeOutcome::RestoredDelete
        } else {
            ChangeOutcome::RestoredModify
        },
    }
}

/// The line a rollback reports for one change of the file shown as `path`.
pub open spec fn spec_detail(outcome: ChangeOutcome, path: Seq<char>) -> Seq<char> {
    match outcome {
        ChangeOutcome::Removed => "已撤销新建: "@ + path,
        ChangeOutcome::CreatedGone => "新建文件已不存在（跳过）: "@ + path,
        ChangeOutcome::NoBackup => "无法恢复（无备份）: "@ + path,
        ChangeOutcome::BackupLost => "无法恢复（备份文件丢失）: "@ + path,
        ChangeOutcome::RestoredDelete => "已恢复删除: "@ + path,
        ChangeOutcome::RestoredModify => "已恢复修改: "@ + path,
    }
}

/// Writes the report line for one undone change.
pub fn detail_line(outcome: ChangeOutcome, path: &str) -> (r: String)
    ensures
        r@ == spec_detail(outcome, path@),
{
    match outcome {
        ChangeOutcome::Removed => concat2("已撤销新建: ", path),
        ChangeOutcome::CreatedGone => concat2("新建文件已不存在（跳过）: ", path),
        ChangeOutcome::NoBackup => concat2("无法恢复（无备份）: ", path),
        ChangeOutcome::BackupLost => concat2("无法恢复（备份文件丢失）: ", path),
        ChangeOutcome::RestoredDelete => concat2("已恢复删除: ", path),
        ChangeOutcome::RestoredModify => concat2("已恢复修改: ", path),
    }
}

/// What the file system answered when one change was undone: its action,
/// whether the file was there (asked for a creation), and whether a copy
/// was recorded and, if so, whether it was still there (asked for a
/// modification or deletion).
pub type UndoAnswer = (FileAction, bool, Option<bool>);

/// How undoing a change ends, given the answers for it.
pub open spec fn spec_undo_outcome(a: UndoAnswer) -> ChangeOutcome {
    if a.0 == FileAction::Create {
        if a.1 { ChangeOutcome::Removed } else { ChangeOutcome::CreatedGone }
    } else {
        match a.2 {
            None => ChangeOutcome::NoBackup,
            Some(false) => ChangeOutcome::BackupLost,
            Some(true) => if a.0 == FileAction::Delete {
                ChangeOutcome::RestoredDelete
            } else {
                ChangeOutcome::RestoredModify
            },
        }
    }
}

/// How undoing a change ends, given the answers for it.
pub fn undo_outcome(action: FileAction, path_exists: bool, backup: Option<bool>) -> (r: ChangeOutcome)
    ensures
        r == spec_undo_outcome((action, path_exists, backup)),
        action == FileAction::Create ==> r == spec_step_outcome(created_step(path_exists), action),
        action != FileAction::Create ==> r == spec_step_outcome(recorded_step(backup), action),
{
    match action {
        FileAction::Create => step_outcome(created_file_step(path_exists), action),
        _ => step_outcome(recorded_file_step(backup), action),
    }
}

/// The step undoing a creation takes.
pub open spec fn created_step(exists: bool) -> RollbackStep {
    if exists { RollbackStep::RemoveCreated } else { RollbackStep::SkipCreatedGone }
}

/// The step undoing a modification or deletion takes.
pub open spec fn recorded_step(backup: Option<bool>) -> RollbackStep {
    match backup {
        None => RollbackStep::SkipNoBackup,
        Some(false) => RollbackStep::SkipBackupLost,
        Some(true) => RollbackStep::RestoreBackup,
    }
}

/// The changes undone so far: the answers for each and the path it was
/// shown as.
pub struct RollbackProgress {
    entries: Vec<(FileAction, bool, Option<bool>, String)>,
}

impl View for RollbackProgress {
    type V = Seq<(ChangeOutcome, Seq<char>)>;

    closed spec fn view(&self) -> Seq<(ChangeOutcome, Seq<char>)> {
        self.entries@.map_values(
            |e: (FileAction, bool, Option<bool>, String)| (spec_undo_outcome((e.0, e.1, e.2)), e.3@),
        )
    }
}

impl RollbackProgress {
    /// The answers of the file system for the changes undone so far.
    pub closed spec fn answers(&self) -> Seq<UndoAnswer> {
        self.entries@.map_values(|e: (FileAction, bool, Option<bool>, String)| (e.0, e.1, e.2))
    }

    /// Each outcome noted is the one its answers give.
    pub proof fn lemma_follows_answers(&self)
        ensures
            self@.len() == self.answers().len(),
            forall|i: int| 0 <= i < self@.len() ==> #[trigger] self@[i].0 == spec_undo_outcome(self.answers()[i]),
    {
    }

    /// Nothing undone yet.
    pub fn new() -> (p: RollbackProgress)
        ensures
            p@ == Seq::<(ChangeOutcome, Seq<char>)>::empty(),
            p.answers() == Seq::<UndoAnswer>::empty(),
    {
        let p = RollbackProgress { entries: Vec::new() };
        assert(p@ =~= Seq::<(ChangeOutcome, Seq<char>)>::empty());
        assert(p.answers() =~= Seq::<UndoAnswer>::empty());
        p
    }

    /// Records that the change of `action` to the file shown as `path` was
    /// undone, with the file system's answers for it: whether the file was
    /// there (for a creation) and whether its copy was recorded and still
    /// there (for a modification or deletion).
    pub fn note_change(&mut self, action: FileAction, path_exists: bool, backup: Option<bool>, path: String)
        ensures
            final(self)@ == old(self)@.push((spec_undo_outcome((action, path_exists, backup)), path@)),
            final(self).answers() == old(self).answers().push((action, path_exists, backup)),
    {
        let ghost before = self@;
        let ghost before_answers = self.answers();
        self.entries.push((action, path_exists, backup, path));
        assert(self@ =~= before.push((spec_undo_outcome((action, path_exists, backup)), path@)));
        assert(self.answers() =~= before_answers.push((action, path_exists, backup)));
    }

    /// Number of changes undone so far.
    pub fn len(&self) -> (n: usize)
        ensures
            n == self@.len(),
    {
        self.entries.len()
    }
}

/// The result of a rollback.
#[derive(Debug, Clone, PartialEq, Eq)]
pub struct RollbackResult {
    /// Files put back from their copies.
    pub restored: usize,
    /// Created files removed.
    pub removed: usize,
    /// Changes that could not be undone.
    pub skipped: usize,
    /// One line per change, in the order they were undone.
    pub details: Vec<String>,
}

/// Whether an outcome restored a file.
pub open spec fn is_restored(o: ChangeOutcome) -> bool {
    o == ChangeOutcome::RestoredModify || o == ChangeOutcome::RestoredDelete
}

/// Whether an outcome skipped its change.
pub open spec fn is_skipped(o: ChangeOutcome) -> bool {
    o == ChangeOutcome::CreatedGone || o == ChangeOutcome::NoBackup || o == ChangeOutcome::BackupLost
}

/// Number of outcomes with a property.
pub open spec fn count_outcomes(s: Seq<(ChangeOutcome, Seq<char>)>, kind: int) -> nat
    decreases s.len(),
{
    if s.len() == 0 {
        0
    } else {
        let o = s.last().0;
        let hit = if kind == 0 {
            is_restored(o)
        } else if kind == 1 {
            o == ChangeOutcome::Removed
        } else {
            is_skipped(o)
        };
        count_outcomes(s.drop_last(), kind) + if hit { 1nat } else { 0nat }
    }
}

/// Files restored.
pub open spec fn count_restored(s: Seq<(ChangeOutcome, Seq<char>)>) -> nat {
    count_outcomes(s, 0)
}

/// Created files removed.
pub open spec fn count_removed(s: Seq<(ChangeOutcome, Seq<char>)>) -> nat {
    count_outcomes(s, 1)
}

/// Changes skipped.
pub open spec fn count_skipped(s: Seq<(ChangeOutcome, Seq<char>)>) -> nat {
    count_outcomes(s, 2)
}

/// The report lines of the undone changes.
pub open spec fn detail_lines(s: Seq<(ChangeOutcome, Seq<char>)>) -> Seq<Seq<char>> {
    s.map_values(|e: (ChangeOutcome, Seq<char>)| spec_detail(e.0, e.1))
}

/// Every undone change is counted exactly once.
pub proof fn lemma_counts_partition(s: Seq<(ChangeOutcome, Seq<char>)>)
    ensures
        count_restored(s) + count_removed(s) + count_skipped(s) == s.len(),
    decreases s.len(),
{
    if s.len() > 0 {
        lemma_counts_partition(s.drop_last());
    }
}

/// Whether answers mean the change was restored (kind 0: a modification or
/// deletion whose copy was still there), removed (kind 1: a creation whose
/// file was there), or skipped (kind 2: anything else).
pub open spec fn answer_is(a: UndoAnswer, kind: int) -> bool {
    let restored = a.0 != FileAction::Create && a.2 == Some(true);
    let removed = a.0 == FileAction::Create && a.1;
    if kind == 0 {
        restored
    } else if kind == 1 {
        removed
    } else {
        !restored && !removed
    }
}

/// Number of answers of a kind.
pub open spec fn count_answers(s: Seq<UndoAnswer>, kind: int) -> nat
    decreases s.len(),
{
    if s.len() == 0 {
        0
    } else {
        count_answers(s.drop_last(), kind) + if answer_is(s.last(), kind) { 1nat } else { 0nat }
    }
}

/// The counts of undone changes follow from the file system's answers:
/// restored are the modifications and deletions whose copy was still
/// there, removed the creations whose file was there, skipped the rest.
pub proof fn lemma_counts_follow_answers(done: Seq<(ChangeOutcome, Seq<char>)>, answers: Seq<UndoAnswer>)
    requires
        done.len() == answers.len(),
        forall|i: int| 0 <= i < done.len() ==> #[trigger] done[i].0 == spec_undo_outcome(answers[i]),
    ensures
        count_restored(done) == count_answers(answers, 0),
        count_removed(done) == count_answers(answers, 1),
        count_skipped(done) == count_answers(answers, 2),
    decreases done.len(),
{
    if done.len() > 0 {
        let d = done.drop_last();
        let a = answers.drop_last();
        assert forall|i: int| 0 <= i < d.len() implies #[trigger] d[i].0 == spec_undo_outcome(a[i]) by {
            assert(d[i] == done[i]);
            assert(a[i] == answers[i]);
        }
        lemma_counts_follow_answers(d, a);
        assert(done.last().0 == spec_undo_outcome(answers.last()));
    }
}

/// Whether a snapshot recorded a modification or deletion.
pub open spec fn spec_needs_restore(changes: Seq<FileChangeRecord>) -> bool {
    exists|i: int| 0 <= i < changes.len() && (#[trigger] changes[i].action@ == "modify"@ || changes[i].action@ == "delete"@)
}

/// Message when a snapshot with modified or deleted files restored none.
pub open spec fn msg_nothing_restored(lines: Seq<Seq<char>>) -> Seq<char> {
    "未能恢复任何文件。"@ + spec_join(lines, "；"@)
}

/// Message when a rollback changed nothing.
pub open spec fn msg_no_effect(lines: Seq<Seq<char>>) -> Seq<char> {
    "回滚未产生任何效果。"@ + spec_join(lines, "；"@)
}

/// What finishing a rollback gives: an error if it restored nothing while
/// files were modified or deleted, or if it neither restored nor removed
/// anything; otherwise the counts and report lines.
pub open spec fn spec_finish_rollback(changes: Seq<FileChangeRecord>, done: Seq<(ChangeOutcome, Seq<char>)>) -> Result<(nat, nat, nat, Seq<Seq<char>>), Seq<char>> {
    let restored = count_restored(done);
    let removed = count_removed(done);
    let skipped = count_skipped(done);
    let lines = detail_lines(done);
    if spec_needs_restore(changes) && restored == 0 {
        Err(msg_nothing_restored(lines))
    } else if restored + removed == 0 {
        Err(msg_no_effect(lines))
    } else {
        Ok((restored, removed, skipped, lines))
    }
}

fn needs_restore(changes: &Vec<FileChangeRecord>) -> (r: bool)
    ensures
        r == spec_needs_restore(changes@),
{
    let mut i: usize = 0;
    while i < changes.len()
        invariant
            0 <= i <= changes.len(),
            forall|j: int| 0 <= j < i ==> !(#[trigger] changes@[j].action@ == "modify"@ || changes@[j].action@ == "delete"@),
        decreases changes.len() - i,
    {
        if str_eq(changes[i].action.as_str(), "modify") || str_eq(changes[i].action.as_str(), "delete") {
            return true;
        }
        i = i + 1;
    }
    false
}

/// Whether the answers are those of every recorded change, undone newest
/// first: one per change, each with the change's action.
pub open spec fn undone_in_order(changes: Seq<FileChangeRecord>, answers: Seq<UndoAnswer>) -> bool {
    &&& answers.len() == changes.len()
    &&& forall|i: int| 0 <= i < answers.len() ==> crate::action::spec_parse_action(
        #[trigger] changes[changes.len() - 1 - i].action@,
    ) == Some(answers[i].0)
}

/// Finishes a rollback of a snapshot with the given recorded changes,
/// after every change was undone as recorded in `progress`.
pub fn finish_rollback(changes: &Vec<FileChangeRecord>, progress: &RollbackProgress) -> (r: Result<RollbackResult, OpenRollbackError>)
    requires
        undone_in_order(changes@, progress.answers()),
    ensures
        r matches Ok(res) ==> res.details@.len() == changes@.len(),
        match spec_finish_rollback(changes@, progress@) {
            Ok((restored, removed, skipped, lines)) => r matches Ok(res) && res.restored == restored
                && res.removed == removed && res.skipped == skipped && views(res.details@) == lines,
            Err(m) => fails_with(r, m),
        },
        r matches Ok(res) ==> res.restored == count_answers(progress.answers(), 0)
            && res.removed == count_answers(progress.answers(), 1) && res.skipped == count_answers(
            progress.answers(),
            2,
        ),
{
    proof {
        progress.lemma_follows_answers();
        lemma_counts_follow_answers(progress@, progress.answers());
    }
    let ghost done = progress@;
    let n = progress.entries.len();
    let mut restored: usize = 0;
    let mut removed: usize = 0;
    let mut skipped: usize = 0;
    let mut details: Vec<String> = Vec::new();
    let mut i: usize = 0;
    while i < n
        invariant
            0 <= i <= n,
            n == done.len(),
            done == progress@,
            restored == count_restored(done.take(i as int)),
            removed == count_removed(done.take(i as int)),
            skipped == count_skipped(done.take(i as int)),
            restored + removed + skipped == i,
            views(details@) == detail_lines(done.take(i as int)),
        decreases n - i,
    {
        let e = &progress.entries[i];
        let o = undo_outcome(e.0, e.1, e.2);
        assert(done.take(i + 1).drop_last() =~= done.take(i as int));
        assert(done[i as int] == (o, progress.entries@[i as int].3@));
        proof {
            lemma_counts_partition(done.take(i as int));
        }
        match o {
            ChangeOutcome::RestoredModify | ChangeOutcome::RestoredDelete => restored = restored + 1,
            ChangeOutcome::Removed => removed = removed + 1,
            _ => skipped = skipped + 1,
        }
        let line = detail_line(o, progress.entries[i].3.as_str());
        let ghost before = details@;
        details.push(line);
        assert(views(details@) =~= views(before).push(line@));
        assert(detail_lines(done.take(i + 1)) =~= detail_lines(done.take(i as int)).push(spec_detail(o, progress.entries@[i as int].3@)));
        i = i + 1;
    }
    assert(done.take(n as int) =~= done);
    if needs_restore(changes) && restored == 0 {
        let joined = join_strings(&details, "；");
        return Err(OpenRollbackError::Snapshot(concat2("未能恢复任何文件。", joined.as_str())));
    }
    if restored + removed == 0 {
        let joined = join_strings(&details, "；");
        return Err(OpenRollbackError::Snapshot(concat2("回滚未产生任何效果。", joined.as_str())));
    }
    Ok(RollbackResult { restored, removed, skipped, details })
}

/// A finished rollback counts every undone change once, removed or
/// restored something, and restored something whenever the snapshot
/// recorded a modification or deletion.
pub proof fn lemma_finished_rollback_effective(changes: Seq<FileChangeRecord>, done: Seq<(ChangeOutcome, Seq<char>)>)
    requires
        spec_finish_rollback(changes, done) is Ok,
    ensures
        spec_finish_rollback(changes, done) matches Ok((restored, removed, skipped, lines)) && restored
            + removed + skipped == done.len() && restored + removed > 0 && (spec_needs_restore(changes)
            ==> restored > 0) && lines.len() == done.len(),
{
    lemma_counts_partition(done);
}

/// A rolled-back snapshot cannot be rolled back again.
pub proof fn lemma_rollback_once(snapshot_id: i64, s: SnapshotRecord)
    requires
        s.status@ == status_rolled_back(),
    ensures
        spec_begin_rollback(snapshot_id, Some(s)) == Err::<SnapshotRecord, Seq<char>>(msg_already_rolled_back(snapshot_id)),
{
}

} // verus!
