//! What the file watcher decides: which notifications become queued
//! changes, where content copies are named, and which existing files are
//! cached first when watching starts.

use vstd::prelude::*;
use crate::action::FileAction;
use crate::events::{CachedFile, ContentCache, FileChangeEvent};
use crate::order::{Sequenced, sort_items, sorted_adjacent};
use crate::text::{str_eq, concat3};
use crate::hash::{sha256_hex, spec_hex_lower, spec_sha256};

verus! {

/// How a file was accessed when an access notification arrived.
#[derive(Debug, Clone, Copy, PartialEq, Eq, Structural)]
pub enum AccessModeKind {
    Any,
    Execute,
    Read,
    Write,
    Other,
}

/// The kind of a file-system notification, as the watcher reports it.
#[derive(Debug, Clone, Copy, PartialEq, Eq, Structural)]
pub enum NotifyKind {
    Any,
    Other,
    AccessClose(AccessModeKind),
    AccessOther,
    CreateAny,
    CreateFile,
    CreateFolder,
    CreateOther,
    ModifyAny,
    ModifyData,
    ModifyMetadata,
    ModifyName,
    ModifyOther,
    RemoveAny,
    RemoveFile,
    RemoveFolder,
    RemoveOther,
}

/// What to do with one path of a notification.
#[derive(Debug, Clone, Copy, PartialEq, Eq, Structural)]
pub enum NotifyStep {
    /// A file was closed: cache its content so a later deletion can be undone.
    CacheOnClose,
    /// A change to queue, if the path is tracked.
    Track(FileAction),
    /// Nothing to do.
    Ignore,
}

/// The step a notification kind calls for.
pub open spec fn spec_notify_step(kind: NotifyKind) -> NotifyStep {
    match kind {
        NotifyKind::AccessClose(m) => if m == AccessModeKind::Execute {
            NotifyStep::Ignore
        } else {
            NotifyStep::CacheOnClose
        },
        NotifyKind::CreateFile | NotifyKind::CreateAny => NotifyStep::Track(FileAction::Create),
        NotifyKind::ModifyData | NotifyKind::ModifyMetadata | NotifyKind::ModifyName
        | NotifyKind::ModifyAny => NotifyStep::Track(FileAction::Modify),
        NotifyKind::RemoveFile | NotifyKind::RemoveAny => NotifyStep::Track(FileAction::Delete),
        _ => NotifyStep::Ignore,
    }
}

/// Sorts a notification kind: closes are cached, file creations,
/// modifications and removals are tracked, the rest is ignored. Every
/// modification of a file's data, metadata or name, or of an unknown kind,
/// is tracked as a modification.
pub fn notify_step(kind: NotifyKind) -> (r: NotifyStep)
    ensures
        r == spec_notify_step(kind),
        kind is CreateFile || kind is CreateAny ==> r == NotifyStep::Track(FileAction::Create),
        kind is ModifyData || kind is ModifyMetadata || kind is ModifyName || kind is ModifyAny ==> r
            == NotifyStep::Track(FileAction::Modify),
        kind is RemoveFile || kind is RemoveAny ==> r == NotifyStep::Track(FileAction::Delete),
        kind == NotifyKind::AccessClose(AccessModeKind::Execute) ==> r == NotifyStep::Ignore,
        kind is AccessClose && kind != NotifyKind::AccessClose(AccessModeKind::Execute) ==> r
            == NotifyStep::CacheOnClose,
        kind is Any || kind is Other || kind is AccessOther || kind is CreateFolder || kind is CreateOther
            || kind is ModifyOther || kind is RemoveFolder || kind is RemoveOther ==> r == NotifyStep::Ignore,
{
    match kind {
        NotifyKind::AccessClose(m) => match m {
            AccessModeKind::Execute => NotifyStep::Ignore,
            _ => NotifyStep::CacheOnClose,
        },
        NotifyKind::CreateFile | NotifyKind::CreateAny => NotifyStep::Track(FileAction::Create),
        NotifyKind::ModifyData | NotifyKind::ModifyMetadata | NotifyKind::ModifyName
        | NotifyKind::ModifyAny => NotifyStep::Track(FileAction::Modify),
        NotifyKind::RemoveFile | NotifyKind::RemoveAny => NotifyStep::Track(FileAction::Delete),
        _ => NotifyStep::Ignore,
    }
}

/// The kinds of notification, one by one: a created file (or a creation of
/// unknown kind) is queued as a creation; a write to a file's data,
/// metadata or name, or a modification of unknown kind, as a modification;
/// a removed file (or a removal of unknown kind) as a deletion; a close
/// other than after executing is cached; everything else is ignored.
pub proof fn lemma_notify_table(kind: NotifyKind)
    ensures
        kind is CreateFile || kind is CreateAny ==> spec_notify_step(kind) == NotifyStep::Track(FileAction::Create),
        kind is ModifyData || kind is ModifyMetadata || kind is ModifyName || kind is ModifyAny ==> spec_notify_step(kind)
            == NotifyStep::Track(FileAction::Modify),
        kind is RemoveFile || kind is RemoveAny ==> spec_notify_step(kind) == NotifyStep::Track(FileAction::Delete),
        kind == NotifyKind::AccessClose(AccessModeKind::Execute) ==> spec_notify_step(kind) == NotifyStep::Ignore,
        kind is AccessClose && kind != NotifyKind::AccessClose(AccessModeKind::Execute) ==> spec_notify_step(kind)
            == NotifyStep::CacheOnClose,
        kind is Any || kind is Other || kind is AccessOther || kind is CreateFolder || kind is CreateOther
            || kind is ModifyOther || kind is RemoveFolder || kind is RemoveOther ==> spec_notify_step(kind) == NotifyStep::Ignore,
{
}

/// Whether a changed path is queued, given what the file system says of it:
/// nothing inside the staging directory, no directories; a deletion always,
/// a creation of a file (or of something already gone), a modification of
/// a file.
pub open spec fn spec_track(
    action: FileAction,
    in_staging: bool,
    exists_first: bool,
    is_dir: bool,
    exists_again: bool,
    is_file: bool,
) -> bool {
    if in_staging {
        false
    } else if exists_first && is_dir {
        false
    } else {
        match action {
            FileAction::Delete => true,
            FileAction::Create => !exists_again || is_file,
            FileAction::Modify => is_file,
        }
    }
}

/// Decides whether a changed path is queued, from the file-system answers.
pub fn track_decision(
    action: FileAction,
    in_staging: bool,
    exists_first: bool,
    is_dir: bool,
    exists_again: bool,
    is_file: bool,
) -> (r: bool)
    ensures
        r == spec_track(action, in_staging, exists_first, is_dir, exists_again, is_file),
{
    if in_staging {
        false
    } else if exists_first && is_dir {
        false
    } else {
        match action {
            FileAction::Delete => true,
            FileAction::Create => !exists_again || is_file,
            FileAction::Modify => is_file,
        }
    }
}

/// Whether `path` lies under `base` by whole components, as
/// `std::path::Path::starts_with` answers on this platform.
pub uninterp spec fn spec_path_starts_with(path: Seq<char>, base: Seq<char>) -> bool;

/// Whether two path texts name the same path by components, as
/// `std::path::Path` equality answers on this platform.
pub uninterp spec fn spec_paths_equal(a: Seq<char>, b: Seq<char>) -> bool;

/// The parent of a path as lossy UTF-8 text, as `std::path::Path::parent`
/// answers on this platform.
pub uninterp spec fn spec_path_parent(path: Seq<char>) -> Option<Seq<char>>;

/// Whether `a` sorts before `b` by components, as `std::path::Path`
/// ordering answers on this platform.
pub uninterp spec fn spec_path_less(a: Seq<char>, b: Seq<char>) -> bool;

/// `std::path::Path::starts_with`. Claimed: the answer is the one named
/// `spec_path_starts_with` of the two texts, and a path starts with itself
/// (its components are a prefix of themselves).
#[verifier::external_body]
fn path_starts_with(path: &str, base: &str) -> (r: bool)
    ensures
        r == spec_path_starts_with(path@, base@),
        path@ == base@ ==> r,
{
    std::path::Path::new(path).starts_with(base)
}

/// `std::path::Path` equality. Claimed: the answer is the one named
/// `spec_paths_equal`, and equal texts name the same path (`Path` is `Eq`).
#[verifier::external_body]
fn paths_equal(a: &str, b: &str) -> (r: bool)
    ensures
        r == spec_paths_equal(a@, b@),
        a@ == b@ ==> r,
{
    std::path::Path::new(a) == std::path::Path::new(b)
}

/// `std::path::Path::parent`, as lossy UTF-8 text. Claimed: the answer is
/// the one named `spec_path_parent`.
#[verifier::external_body]
fn path_parent(path: &str) -> (r: Option<String>)
    ensures
        crate::paths::opt_view(r) == spec_path_parent(path@),
{
    std::path::Path::new(path).parent().map(|p| p.to_string_lossy().into_owned())
}

/// `std::path::Path` ordering (`<`). Claimed: the answer is the one named
/// `spec_path_less`, and the order is strict (`Path` is `Ord`, a total
/// order): no path sorts before itself, and of two paths at most one sorts
/// before the other.
#[verifier::external_body]
pub(crate) fn path_less(path: &str, other: &str) -> (r: bool)
    ensures
        r == spec_path_less(path@, other@),
        path@ == other@ ==> !r,
        r ==> !spec_path_less(other@, path@),
{
    std::path::Path::new(path) < std::path::Path::new(other)
}

/// Decides whether a changed path is queued, asking the file system about
/// it in the order the watcher always has. Nothing under the staging
/// directory is queued, the staging directory itself included.
pub fn should_track_path(path: &str, action: FileAction, staging_dir: &str) -> (r: bool)
    ensures
        exists|e1: bool, d: bool, e2: bool, f: bool|
            r == spec_track(action, spec_path_starts_with(path@, staging_dir@), e1, d, e2, f),
        spec_path_starts_with(path@, staging_dir@) ==> !r,
        path@ == staging_dir@ ==> !r,
{
    let in_staging = path_starts_with(path, staging_dir);
    if in_staging {
        return track_decision(action, true, false, false, false, false);
    }
    let exists_first = crate::paths::path_exists(path);
    let is_dir = if exists_first { crate::paths::path_is_dir(path) } else { false };
    if exists_first && is_dir {
        return track_decision(action, false, true, true, false, false);
    }
    match action {
        FileAction::Delete => track_decision(action, false, exists_first, is_dir, false, false),
        FileAction::Create => {
            let exists_again = crate::paths::path_exists(path);
            let is_file = if exists_again { crate::paths::path_is_file(path) } else { false };
            track_decision(action, false, exists_first, is_dir, exists_again, is_file)
        },
        FileAction::Modify => {
            let is_file = crate::paths::path_is_file(path);
            track_decision(action, false, exists_first, is_dir, false, is_file)
        },
    }
}

/// Where the content for a deleted file comes from.
#[derive(Debug, Clone, PartialEq, Eq)]
pub enum DeleteBackup {
    /// The copy cached earlier.
    FromCache(CachedFile),
    /// The file is still there: copy it now.
    CopyNow,
    /// No copy can be had.
    Missing,
}

/// Chooses the source of a deleted file's content: the cached copy, else
/// a fresh copy if the file still exists, else none.
pub fn delete_backup_plan(cached: Option<CachedFile>, exists: bool) -> (r: DeleteBackup)
    ensures
        cached matches Some(c) ==> r == DeleteBackup::FromCache(c),
        cached is None && exists ==> r == DeleteBackup::CopyNow,
        cached is None && !exists ==> r == DeleteBackup::Missing,
{
    match cached {
        Some(c) => DeleteBackup::FromCache(c),
        None => if exists { DeleteBackup::CopyNow } else { DeleteBackup::Missing },
    }
}

/// The queued event for a tracked change, with the content copy taken for
/// it (hash and copy path), if any.
pub fn tracked_event(path: String, action: FileAction, copy: Option<CachedFile>) -> (r: FileChangeEvent)
    ensures
        r.path == path,
        r.action == action,
        copy matches Some(c) ==> r.original_hash == Some(c.hash) && r.staging_backup == Some(c.staging_backup),
        copy is None ==> r.original_hash is None && r.staging_backup is None,
{
    match copy {
        Some(c) => FileChangeEvent {
            path,
            action,
            original_hash: Some(c.hash),
            staging_backup: Some(c.staging_backup),
        },
        None => FileChangeEvent { path, action, original_hash: None, staging_backup: None },
    }
}

/// What the watcher does with one path of a notification.
#[derive(Debug, Clone, PartialEq, Eq)]
pub enum PathPlan {
    /// Nothing.
    Skip,
    /// A file was closed: copy its content into the cache, under this
    /// normalised path.
    CacheOnClose(String),
    /// Queue a creation of this normalised path (its content is cached on
    /// the side; the change carries no copy).
    Create(String),
    /// Queue a modification of this normalised path, with the copy cached
    /// before the change if there is one (else the copy taken now).
    Modify(String, Option<CachedFile>),
    /// Queue a deletion of this normalised path, with its content from here.
    Delete(String, DeleteBackup),
}

/// The cached copy a deletion uses: the one under the normalised path,
/// else the one under the path as reported.
pub open spec fn cached_for(cache: Map<Seq<char>, CachedFile>, normalized: Seq<char>, reported: Seq<char>) -> Option<
    CachedFile,
> {
    if cache.contains_key(normalized) {
        Some(cache[normalized])
    } else if cache.contains_key(reported) {
        Some(cache[reported])
    } else {
        None
    }
}

/// Whether `r` is a sound plan for a tracked change `action` of the path
/// `reported`, given the cache: it names the normalised path, and a
/// deletion takes the cached copy when there is one.
pub open spec fn tracked_plan(action: FileAction, reported: Seq<char>, cache: Map<Seq<char>, CachedFile>, r: PathPlan) -> bool {
    match action {
        FileAction::Create => r matches PathPlan::Create(n) && crate::paths::is_normalized_form(n@, reported),
        FileAction::Modify => r matches PathPlan::Modify(n, c) && crate::paths::is_normalized_form(n@, reported)
            && c == cached_for(cache, n@, reported),
        FileAction::Delete => r matches PathPlan::Delete(n, b) && crate::paths::is_normalized_form(n@, reported)
            && match cached_for(cache, n@, reported) {
                Some(c) => b == DeleteBackup::FromCache(c),
                None => b is CopyNow || b is Missing,
            },
    }
}

/// Plans what to do with one path of a notification of `kind`: closes of
/// files are cached, ignored kinds are skipped, and a tracked change is
/// queued under its normalised path, a deletion with the cached copy when
/// there is one. The staging directory itself is never queued.
pub fn plan_notify_path(kind: NotifyKind, reported: &str, staging_dir: &str, cache: &ContentCache) -> (r: PathPlan)
    ensures
        spec_notify_step(kind) == NotifyStep::Ignore ==> r == PathPlan::Skip,
        spec_notify_step(kind) == NotifyStep::CacheOnClose ==> (r is Skip || (r matches PathPlan::CacheOnClose(n)
            && crate::paths::is_normalized_form(n@, reported@))),
        spec_notify_step(kind) matches NotifyStep::Track(a) ==> (r is Skip || tracked_plan(a, reported@, cache@, r)),
        spec_notify_step(kind) is Track && spec_path_starts_with(reported@, staging_dir@) ==> r == PathPlan::Skip,
        spec_notify_step(kind) is Track && reported@ == staging_dir@ ==> r == PathPlan::Skip,
{
    match notify_step(kind) {
        NotifyStep::Ignore => PathPlan::Skip,
        NotifyStep::CacheOnClose => {
            let n = crate::paths::normalize_fs_path(reported);
            if crate::paths::path_is_file(n.as_str()) {
                PathPlan::CacheOnClose(n)
            } else {
                PathPlan::Skip
            }
        },
        NotifyStep::Track(action) => {
            if !should_track_path(reported, action, staging_dir) {
                return PathPlan::Skip;
            }
            let n = crate::paths::normalize_fs_path(reported);
            match action {
                FileAction::Create => PathPlan::Create(n),
                FileAction::Modify => {
                    let cached = cache.lookup(n.as_str(), reported);
                    PathPlan::Modify(n, cached)
                },
                FileAction::Delete => {
                    let cached = cache.lookup(n.as_str(), reported);
                    let exists = cached.is_none() && crate::paths::path_exists(n.as_str());
                    let b = delete_backup_plan(cached, exists);
                    PathPlan::Delete(n, b)
                },
            }
        },
    }
}

/// The event for a change of `path` by `action` with the given copy.
pub open spec fn spec_event(path: String, action: FileAction, copy: Option<CachedFile>) -> FileChangeEvent {
    match copy {
        Some(c) => FileChangeEvent { path, action, original_hash: Some(c.hash), staging_backup: Some(c.staging_backup) },
        None => FileChangeEvent { path, action, original_hash: None, staging_backup: None },
    }
}

/// The change a plan queues, given the copy taken for it: nothing for a
/// skip or a close; a creation without a copy; a modification with the copy
/// cached before the change, else with the copy taken now; a deletion with
/// the cached copy, else with the copy made now, else without one.
pub open spec fn spec_change_for_plan(plan: PathPlan, copy: Option<CachedFile>) -> Option<FileChangeEvent> {
    match plan {
        PathPlan::Skip => None,
        PathPlan::CacheOnClose(_) => None,
        PathPlan::Create(n) => Some(spec_event(n, FileAction::Create, None)),
        PathPlan::Modify(n, cached) => match cached {
            Some(c) => Some(spec_event(n, FileAction::Modify, Some(c))),
            None => Some(spec_event(n, FileAction::Modify, copy)),
        },
        PathPlan::Delete(n, b) => match b {
            DeleteBackup::FromCache(c) => Some(spec_event(n, FileAction::Delete, Some(c))),
            DeleteBackup::CopyNow => Some(spec_event(n, FileAction::Delete, copy)),
            DeleteBackup::Missing => Some(spec_event(n, FileAction::Delete, None)),
        },
    }
}

/// The change a plan queues, given the copy taken for it now (for a
/// modification or a deletion without a cached copy).
pub fn change_for_plan(plan: PathPlan, copy: Option<CachedFile>) -> (r: Option<FileChangeEvent>)
    ensures
        r == spec_change_for_plan(plan, copy),
        r matches Some(e) ==> (e.original_hash is Some <==> e.staging_backup is Some),
{
    match plan {
        PathPlan::Skip => None,
        PathPlan::CacheOnClose(_) => None,
        PathPlan::Create(n) => Some(tracked_event(n, FileAction::Create, None)),
        PathPlan::Modify(n, cached) => match cached {
            Some(c) => Some(tracked_event(n, FileAction::Modify, Some(c))),
            None => Some(tracked_event(n, FileAction::Modify, copy)),
        },
        PathPlan::Delete(n, b) => match b {
            DeleteBackup::FromCache(c) => Some(tracked_event(n, FileAction::Delete, Some(c))),
            DeleteBackup::CopyNow => Some(tracked_event(n, FileAction::Delete, copy)),
            DeleteBackup::Missing => Some(tracked_event(n, FileAction::Delete, None)),
        },
    }
}

/// A tracked deletion of a path whose content is cached is queued as one
/// deletion of that path carrying the cached hash and copy, whatever copy
/// was taken besides.
pub proof fn lemma_cached_deletion_keeps_copy(
    reported: Seq<char>,
    cache: Map<Seq<char>, CachedFile>,
    plan: PathPlan,
    copy: Option<CachedFile>,
)
    requires
        tracked_plan(FileAction::Delete, reported, cache, plan),
        plan matches PathPlan::Delete(n, _) && cached_for(cache, n@, reported) is Some,
    ensures
        plan matches PathPlan::Delete(n, _) && spec_change_for_plan(plan, copy) == Some(FileChangeEvent {
            path: n,
            action: FileAction::Delete,
            original_hash: Some(cached_for(cache, n@, reported)->0.hash),
            staging_backup: Some(cached_for(cache, n@, reported)->0.staging_backup),
        }),
{
}

/// A tracked modification of a path whose earlier content is cached is
/// queued as one modification carrying the hash and copy of that earlier
/// content, not of the content after the change.
pub proof fn lemma_cached_modification_keeps_copy(
    reported: Seq<char>,
    cache: Map<Seq<char>, CachedFile>,
    plan: PathPlan,
    copy: Option<CachedFile>,
)
    requires
        tracked_plan(FileAction::Modify, reported, cache, plan),
        plan matches PathPlan::Modify(n, _) && cached_for(cache, n@, reported) is Some,
    ensures
        plan matches PathPlan::Modify(n, _) && spec_change_for_plan(plan, copy) == Some(FileChangeEvent {
            path: n,
            action: FileAction::Modify,
            original_hash: Some(cached_for(cache, n@, reported)->0.hash),
            staging_backup: Some(cached_for(cache, n@, reported)->0.staging_backup),
        }),
{
}

/// A creation is queued without a copy, and every queued change carries a
/// hash exactly when it carries a copy.
pub proof fn lemma_queued_change_shape(plan: PathPlan, copy: Option<CachedFile>)
    ensures
        plan is Create ==> (spec_change_for_plan(plan, copy) matches Some(e) && e.original_hash is None
            && e.staging_backup is None),
        spec_change_for_plan(plan, copy) matches Some(e) ==> (e.original_hash is Some <==> e.staging_backup is Some),
{
}

/// The file name under which a content copy is stored: `{hash}_{name}`,
/// with `unknown` for a path without a (UTF-8) file name.
pub open spec fn spec_copy_name(hash: Seq<char>, file_name: Option<Seq<char>>) -> Seq<char> {
    hash + "_"@ + match file_name {
        Some(n) => n,
        None => "unknown"@,
    }
}

/// Hashes a file's content and names its copy `{sha256}_{file name}`.
pub fn copy_name_for(content: &[u8], file_name: Option<&str>) -> (r: (String, String))
    ensures
        r.0@ == spec_hex_lower(spec_sha256(content@)),
        r.1@ == spec_copy_name(r.0@, match file_name {
            Some(n) => Some(n@),
            None => None,
        }),
{
    let hash = sha256_hex(content);
    let name = match file_name {
        Some(n) => concat3(hash.as_str(), "_", n),
        None => concat3(hash.as_str(), "_", "unknown"),
    };
    (hash, name)
}

/// The name a staged copy keeps in a snapshot's backup directory: its own
/// file name, or `backup.bin` when it has none.
pub fn snapshot_copy_name(staged_file_name: Option<String>) -> (r: String)
    ensures
        staged_file_name matches Some(n) ==> r == n,
        staged_file_name is None ==> r@ == "backup.bin"@,
{
    match staged_file_name {
        Some(n) => n,
        None => "backup.bin".to_owned(),
    }
}

/// The largest file cached when watching starts (50 MiB).
pub const PREFETCH_MAX_FILE_BYTES: u64 = 52428800;

/// The most files cached when watching starts.
pub const PREFETCH_MAX_FILES: usize = 10000;

/// What the cache of existing files achieved.
#[derive(Debug, Clone, Copy, PartialEq, Eq, Structural)]
pub struct PrefetchResult {
    /// Files whose content was copied.
    pub cached: usize,
    /// Files that qualified for caching.
    pub total_candidates: usize,
    /// More files qualified than are cached at most.
    pub truncated: bool,
}

impl Default for PrefetchResult {
    fn default() -> (r: Self)
        ensures
            r == (PrefetchResult { cached: 0, total_candidates: 0, truncated: false }),
    {
        PrefetchResult { cached: 0, total_candidates: 0, truncated: false }
    }
}

/// How many candidates may be tried when `total` qualified.
pub open spec fn prefetch_tried(total: usize) -> nat {
    if total > PREFETCH_MAX_FILES { PREFETCH_MAX_FILES as nat } else { total as nat }
}

/// The summary of a cache run over `total_candidates` qualifying files, of
/// which the first ones in cache order were tried (`copied[i]` tells
/// whether the copy of the `i`-th succeeded): the number copied, which is
/// at most the number tried, and whether the limit cut the run.
pub fn prefetch_result(total_candidates: usize, copied: &Vec<bool>) -> (r: PrefetchResult)
    requires
        copied.len() == prefetch_tried(total_candidates),
    ensures
        r.cached == crate::snapshot::count_true(copied@),
        r.cached <= prefetch_tried(total_candidates),
        r.total_candidates == total_candidates,
        r.truncated == (total_candidates > PREFETCH_MAX_FILES),
{
    let mut cached: usize = 0;
    let mut i: usize = 0;
    while i < copied.len()
        invariant
            0 <= i <= copied.len(),
            cached == crate::snapshot::count_true(copied@.take(i as int)),
            cached <= i,
        decreases copied.len() - i,
    {
        assert(copied@.take(i + 1).drop_last() =~= copied@.take(i as int));
        if copied[i] {
            cached = cached + 1;
        }
        i = i + 1;
    }
    assert(copied@.take(copied.len() as int) =~= copied@);
    PrefetchResult { cached, total_candidates, truncated: total_candidates > PREFETCH_MAX_FILES }
}

/// The code of a character after ASCII lower-casing; other characters
/// keep their code.
pub open spec fn ascii_lower(c: char) -> u32 {
    if 65 <= (c as u32) && (c as u32) <= 90 {
        ((c as u32) + 32) as u32
    } else {
        c as u32
    }
}

/// Equality up to ASCII case.
pub open spec fn eq_ignore_ascii_case(a: Seq<char>, b: Seq<char>) -> bool {
    a.len() == b.len() && forall|i: int| 0 <= i < a.len() ==> ascii_lower(#[trigger] a[i]) == ascii_lower(b[i])
}

fn lower_code(c: char) -> (r: u32)
    ensures
        r == ascii_lower(c),
{
    let v = c as u32;
    if 65 <= v && v <= 90 {
        v + 32
    } else {
        v
    }
}

/// Compares two texts ignoring ASCII case (`str::eq_ignore_ascii_case`).
pub fn str_eq_ignore_ascii_case(a: &str, b: &str) -> (r: bool)
    ensures
        r == eq_ignore_ascii_case(a@, b@),
{
    let n = a.unicode_len();
    if n != b.unicode_len() {
        return false;
    }
    let mut i: usize = 0;
    while i < n
        invariant
            0 <= i <= n,
            n == a@.len(),
            n == b@.len(),
            forall|j: int| 0 <= j < i ==> ascii_lower(#[trigger] a@[j]) == ascii_lower(b@[j]),
        decreases n - i,
    {
        let ca = a.get_char(i);
        let cb = b.get_char(i);
        if lower_code(ca) != lower_code(cb) {
            return false;
        }
        i = i + 1;
    }
    true
}

/// Directory names never descended into when caching existing files.
pub open spec fn skipped_dir_names() -> Seq<Seq<char>> {
    seq![
        "node_modules"@,
        ".git"@,
        "target"@,
        "__pycache__"@,
        ".openrollback"@,
        "$RECYCLE.BIN"@,
        "System Volume Information"@,
    ]
}

/// Whether a directory is skipped when caching existing files: its name is
/// one of the heavy or system directories, ignoring ASCII case.
pub fn should_skip_prefetch_dir(name: &str) -> (r: bool)
    ensures
        r == exists|i: int| 0 <= i < skipped_dir_names().len() && eq_ignore_ascii_case(name@, #[trigger] skipped_dir_names()[i]),
{
    let r = str_eq_ignore_ascii_case(name, "node_modules")
        || str_eq_ignore_ascii_case(name, ".git")
        || str_eq_ignore_ascii_case(name, "target")
        || str_eq_ignore_ascii_case(name, "__pycache__")
        || str_eq_ignore_ascii_case(name, ".openrollback")
        || str_eq_ignore_ascii_case(name, "$RECYCLE.BIN")
        || str_eq_ignore_ascii_case(name, "System Volume Information");
    proof {
        let s = skipped_dir_names();
        assert(s[0] == "node_modules"@);
        assert(s[1] == ".git"@);
        assert(s[2] == "target"@);
        assert(s[3] == "__pycache__"@);
        assert(s[4] == ".openrollback"@);
        assert(s[5] == "$RECYCLE.BIN"@);
        assert(s[6] == "System Volume Information"@);
    }
    r
}


/// What a directory entry is to the cache of existing files.
#[derive(Debug, Clone, Copy, PartialEq, Eq, Structural)]
pub enum PrefetchEntry {
    /// Inside the staging directory: never cached.
    InStaging,
    /// A heavy or system directory: not descended into.
    SkippedDir,
    /// A directory to descend into.
    Descend,
    /// A regular file: a candidate if small enough.
    File,
    /// Anything else: ignored.
    Other,
}

/// How an entry is treated, given whether it lies in the staging directory,
/// its type, and whether its name is one of the skipped directory names.
pub open spec fn spec_prefetch_entry(in_staging: bool, is_dir: bool, is_file: bool, skipped_name: bool) -> PrefetchEntry {
    if in_staging {
        PrefetchEntry::InStaging
    } else if is_dir {
        if skipped_name { PrefetchEntry::SkippedDir } else { PrefetchEntry::Descend }
    } else if is_file {
        PrefetchEntry::File
    } else {
        PrefetchEntry::Other
    }
}

/// Whether a name is one of the skipped directory names, ignoring ASCII case.
pub open spec fn is_skipped_dir_name(name: Seq<char>) -> bool {
    exists|i: int| 0 <= i < skipped_dir_names().len() && eq_ignore_ascii_case(name, #[trigger] skipped_dir_names()[i])
}

/// Treats a directory entry given whether it lies in the staging directory.
pub fn prefetch_entry_kind(in_staging: bool, is_dir: bool, is_file: bool, name: &str) -> (r: PrefetchEntry)
    ensures
        r == spec_prefetch_entry(in_staging, is_dir, is_file, is_skipped_dir_name(name@)),
{
    if in_staging {
        PrefetchEntry::InStaging
    } else if is_dir {
        if should_skip_prefetch_dir(name) { PrefetchEntry::SkippedDir } else { PrefetchEntry::Descend }
    } else if is_file {
        PrefetchEntry::File
    } else {
        PrefetchEntry::Other
    }
}

/// Whether an entry lies in the staging directory, by whole path
/// components; the staging directory itself does.
pub fn path_in_staging(path: &str, staging_dir: &str) -> (r: bool)
    ensures
        r == spec_path_starts_with(path@, staging_dir@),
        path@ == staging_dir@ ==> r,
{
    path_starts_with(path, staging_dir)
}

/// A file that may be cached when watching starts.
#[derive(Debug, Clone, PartialEq, Eq)]
pub struct PrefetchCandidate {
    pub path: String,
    /// Last modification, in nanoseconds from the Unix epoch.
    pub mtime_nanos: i128,
    /// 2 for files directly in the watched root, 1 for other entries read
    /// from the root directory, 0 otherwise.
    pub priority: u8,
}

/// Candidates go newest first, then by higher priority.
pub open spec fn candidate_before(a: PrefetchCandidate, b: PrefetchCandidate) -> bool {
    a.mtime_nanos > b.mtime_nanos || (a.mtime_nanos == b.mtime_nanos && a.priority >= b.priority)
}

/// Candidates go newest first, then by higher priority, then by path: `a`
/// may stand before `b` when it is newer, or as new and of higher priority,
/// or as new and of equal priority and `b`'s path does not sort before
/// `a`'s.
pub open spec fn candidate_in_order(a: PrefetchCandidate, b: PrefetchCandidate) -> bool {
    a.mtime_nanos > b.mtime_nanos || (a.mtime_nanos == b.mtime_nanos && (a.priority > b.priority || (a.priority
        == b.priority && !spec_path_less(b.path@, a.path@))))
}

impl Sequenced for PrefetchCandidate {
    open spec fn key_le(self, other: Self) -> bool {
        candidate_in_order(self, other)
    }

    fn precedes(&self, other: &Self) -> (r: bool) {
        if self.mtime_nanos != other.mtime_nanos {
            self.mtime_nanos > other.mtime_nanos
        } else if self.priority != other.priority {
            self.priority > other.priority
        } else {
            path_less(self.path.as_str(), other.path.as_str())
        }
    }

    fn duplicate(&self) -> (r: Self) {
        PrefetchCandidate { path: self.path.clone(), mtime_nanos: self.mtime_nanos, priority: self.priority }
    }
}

/// The priority of a candidate file.
pub open spec fn spec_priority(parent_is_root: bool, dir_is_root: bool) -> u8 {
    if parent_is_root { 2 } else if dir_is_root { 1 } else { 0 }
}

/// Whether the parent of `path` is `root`, by path components.
pub open spec fn parent_is(path: Seq<char>, root: Seq<char>) -> bool {
    match spec_path_parent(path) {
        Some(p) => spec_paths_equal(p, root),
        None => false,
    }
}

/// A file of `size` bytes found in `dir` while caching `root`: a candidate
/// unless it is larger than the cache limit, with priority 2 when its
/// parent is the root, else 1 when it was read from the root, else 0.
pub fn prefetch_candidate(path: String, dir: &str, root: &str, size: u64, mtime_nanos: i128) -> (r: Option<PrefetchCandidate>)
    ensures
        size > PREFETCH_MAX_FILE_BYTES ==> r is None,
        size <= PREFETCH_MAX_FILE_BYTES ==> (r matches Some(c) && c.path == path && c.mtime_nanos == mtime_nanos
            && c.priority == spec_priority(parent_is(path@, root@), spec_paths_equal(dir@, root@))),
        size <= PREFETCH_MAX_FILE_BYTES && dir@ == root@ ==> (r matches Some(c) && c.priority >= 1),
{
    if size > PREFETCH_MAX_FILE_BYTES {
        return None;
    }
    let dir_is_root = paths_equal(dir, root);
    let parent_is_root = match path_parent(path.as_str()) {
        Some(p) => paths_equal(p.as_str(), root),
        None => false,
    };
    let priority: u8 = if parent_is_root { 2 } else if dir_is_root { 1 } else { 0 };
    assert(priority == spec_priority(parent_is_root, dir_is_root));
    Some(PrefetchCandidate { path, mtime_nanos, priority })
}

/// The candidates actually cached: all of them in cache order (newest
/// first, then by priority, then by path, see `candidate_in_order`), cut to
/// the cache limit.
pub fn order_prefetch_candidates(candidates: &Vec<PrefetchCandidate>) -> (r: Vec<PrefetchCandidate>)
    ensures
        exists|s: Seq<PrefetchCandidate>|
            #![trigger s.to_multiset()]
            sorted_adjacent(s) && s.to_multiset() == candidates@.to_multiset()
            && r@ == s.take(if s.len() > PREFETCH_MAX_FILES { PREFETCH_MAX_FILES as int } else { s.len() as int }),
        r@.len() == if candidates@.len() > PREFETCH_MAX_FILES { PREFETCH_MAX_FILES as int } else { candidates@.len() as int },
{
    let mut sorted = sort_items(candidates);
    let ghost s = sorted@;
    if sorted.len() > PREFETCH_MAX_FILES {
        sorted.truncate(PREFETCH_MAX_FILES);
    } else {
        assert(s.take(s.len() as int) =~= s);
    }
    sorted
}

/// In cache order, every candidate may stand before every later one.
pub proof fn lemma_cache_order_total(s: Seq<PrefetchCandidate>, i: int, j: int)
    requires
        sorted_adjacent(s),
        0 <= i <= j < s.len(),
    ensures
        candidate_before(s[i], s[j]),
    decreases j - i,
{
    if i < j {
        lemma_cache_order_total(s, i + 1, j);
        assert(s[i].key_le(s[i + 1]));
    }
}

/// Every cached candidate is at least as recent (then as high in priority)
/// as every candidate left out by the cache limit.
pub proof fn lemma_cached_before_left_out(s: Seq<PrefetchCandidate>, kept: int, i: int, j: int)
    requires
        sorted_adjacent(s),
        0 <= kept <= s.len(),
        0 <= i < kept,
        kept <= j < s.len(),
    ensures
        candidate_before(s.take(kept)[i], s.skip(kept)[j - kept]),
{
    lemma_cache_order_total(s, i, j);
}

/// What the engine watches: a directory is watched exactly when a path is
/// listed, and then the summary of its cache run is known.
pub struct WatchState {
    watching: bool,
    paths: Vec<String>,
    prefetch: Option<PrefetchResult>,
}

impl WatchState {
    #[verifier::type_invariant]
    spec fn consistent(self) -> bool {
        &&& self.watching == (self.paths@.len() == 1)
        &&& !self.watching ==> self.paths@.len() == 0
        &&& self.watching == (self.prefetch is Some)
    }

    /// Whether a directory is watched.
    pub closed spec fn spec_watching(&self) -> bool {
        self.watching
    }

    /// The watched paths.
    pub closed spec fn spec_paths(&self) -> Seq<Seq<char>> {
        crate::text::views(self.paths@)
    }

    /// The summary of the last cache run, while watching.
    pub closed spec fn spec_prefetch(&self) -> Option<PrefetchResult> {
        self.prefetch
    }

    /// Nothing watched.
    pub fn new() -> (s: WatchState)
        ensures
            !s.spec_watching(),
            s.spec_paths() == Seq::<Seq<char>>::empty(),
            s.spec_prefetch() is None,
    {
        let s = WatchState { watching: false, paths: Vec::new(), prefetch: None };
        assert(s.spec_paths() =~= Seq::<Seq<char>>::empty());
        s
    }

    /// Stops watching (also before a new watch starts, so that a failed
    /// start leaves nothing watched).
    pub fn stop(&mut self)
        ensures
            !final(self).spec_watching(),
            final(self).spec_paths() == Seq::<Seq<char>>::empty(),
            final(self).spec_prefetch() is None,
    {
        *self = WatchState::new();
    }

    /// Records that `path` is now watched, with its cache summary.
    pub fn started(&mut self, path: String, prefetch: PrefetchResult)
        ensures
            final(self).spec_watching(),
            final(self).spec_paths() == seq![path@],
            final(self).spec_prefetch() == Some(prefetch),
    {
        let mut paths: Vec<String> = Vec::new();
        paths.push(path);
        let s = WatchState { watching: true, paths, prefetch: Some(prefetch) };
        assert(s.spec_paths() =~= seq![s.paths@[0]@]);
        *self = s;
    }

    /// Whether a directory is watched; it is exactly when one path is
    /// listed, and then the cache summary is known.
    pub fn is_watching(&self) -> (r: bool)
        ensures
            r == self.spec_watching(),
            r == (self.spec_paths().len() == 1),
            !r ==> self.spec_paths().len() == 0,
            r == (self.spec_prefetch() is Some),
    {
        proof {
            use_type_invariant(self);
        }
        self.watching
    }

    /// The watched paths.
    pub fn paths(&self) -> (r: Vec<String>)
        ensures
            crate::text::views(r@) == self.spec_paths(),
    {
        let mut r: Vec<String> = Vec::new();
        let mut i: usize = 0;
        while i < self.paths.len()
            invariant
                0 <= i <= self.paths@.len(),
                crate::text::views(r@) == crate::text::views(self.paths@).take(i as int),
            decreases self.paths@.len() - i,
        {
            let c = self.paths[i].clone();
            let ghost before = r@;
            r.push(c);
            assert(crate::text::views(r@) =~= crate::text::views(before).push(self.paths@[i as int]@));
            assert(crate::text::views(self.paths@).take(i + 1) =~= crate::text::views(self.paths@).take(
                i as int,
            ).push(self.paths@[i as int]@));
            i = i + 1;
        }
        assert(crate::text::views(self.paths@).take(self.paths@.len() as int) =~= crate::text::views(self.paths@));
        r
    }

    /// The summary of the last cache run, while watching.
    pub fn prefetch(&self) -> (r: Option<PrefetchResult>)
        ensures
            r == self.spec_prefetch(),
    {
        self.prefetch
    }
}

} // verus!
