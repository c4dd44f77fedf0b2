//! Where things live: the engine's data directory, the directories offered
//! for watching, and the checks on a path typed in by the user.

use vstd::prelude::*;
use crate::error::OpenRollbackError;
use crate::records::fails_with;
use crate::views::QuickPath;

verus! {

/// `dirs::home_dir`, as lossy UTF-8 text. Nothing is stated: the answer
/// comes from the environment.
#[verifier::external_body]
fn home_dir() -> Option<String> {
    dirs::home_dir().map(|p| p.to_string_lossy().into_owned())
}

/// `dirs::desktop_dir`, as lossy UTF-8 text. Nothing is stated: the answer
/// comes from the environment.
#[verifier::external_body]
fn desktop_dir() -> Option<String> {
    dirs::desktop_dir().map(|p| p.to_string_lossy().into_owned())
}

/// `dirs::document_dir`, as lossy UTF-8 text. Nothing is stated: the answer
/// comes from the environment.
#[verifier::external_body]
fn document_dir() -> Option<String> {
    dirs::document_dir().map(|p| p.to_string_lossy().into_owned())
}

/// `dirs::download_dir`, as lossy UTF-8 text. Nothing is stated: the answer
/// comes from the environment.
#[verifier::external_body]
fn download_dir() -> Option<String> {
    dirs::download_dir().map(|p| p.to_string_lossy().into_owned())
}

/// Whether `r` is `name` adjoined to `base`: directly, or after one path
/// separator.
pub open spec fn is_joined(base: Seq<char>, name: Seq<char>, r: Seq<char>) -> bool {
    r == base + name || r == base + seq!['/'] + name || r == base + seq!['\\'] + name
}

/// Whether `r` is `name` adjoined to some base.
pub open spec fn ends_in_component(name: Seq<char>, r: Seq<char>) -> bool {
    exists|x: Seq<char>| #[trigger] is_joined(x, name, r)
}

/// Whether a name is one plain path component on every platform: not
/// empty, not `.` or `..`, without separators or drive colons.
pub open spec fn is_plain_component(name: Seq<char>) -> bool {
    &&& name.len() > 0
    &&& name != seq!['.']
    &&& name != seq!['.', '.']
    &&& forall|i: int| 0 <= i < name.len() ==> #[trigger] name[i] != '/' && name[i] != '\\' && name[i] != ':'
}

/// `std::path::Path::join`, as lossy UTF-8 text. Claimed, for a plain
/// relative component: the component is adjoined at the end, after a
/// separator where one is needed; to a base without the `\\?\` prefix it is
/// adjoined as the base stands. A base with that prefix is first
/// normalised (`.` and `..` removed), which is not stated; neither is which
/// separator the platform uses.
#[verifier::external_body]
fn path_join(base: &str, name: &str) -> (r: String)
    requires
        is_plain_component(name@),
    ensures
        ends_in_component(name@, r@),
        !crate::paths::has_extended_prefix(base@) ==> is_joined(base@, name@, r@),
{
    std::path::Path::new(base).join(name).to_string_lossy().into_owned()
}

/// The name of the engine's data directory under the home directory.
pub open spec fn data_dir_name() -> Seq<char> {
    ".openrollback"@
}

/// Message when the home directory cannot be found.
pub open spec fn msg_no_home() -> Seq<char> {
    "cannot resolve home directory"@
}

/// The data directory `.openrollback` under the home directory, or an
/// error when there is no home directory.
pub fn base_dir_from_home(home: Option<String>) -> (r: Result<String, OpenRollbackError>)
    ensures
        home matches Some(h) ==> (r matches Ok(p) && ends_in_component(data_dir_name(), p@)
            && (!crate::paths::has_extended_prefix(h@) ==> is_joined(h@, data_dir_name(), p@))),
        home is None ==> fails_with(r, msg_no_home()),
{
    match home {
        Some(h) => {
            let name = ".openrollback";
            proof {
                reveal_strlit(".openrollback");
                assert(name@.len() == 13);
                assert(is_plain_component(name@));
            }
            let p = path_join(h.as_str(), name);
            assert(name@ == data_dir_name());
            Ok(p)
        },
        None => Err(OpenRollbackError::Snapshot("cannot resolve home directory".to_owned())),
    }
}

/// The engine's default data directory, `~/.openrollback`: the home
/// directory with `.openrollback` adjoined, or an error when the home
/// directory cannot be found.
pub fn default_base_dir() -> (r: Result<String, OpenRollbackError>)
    ensures
        r matches Ok(p) ==> ends_in_component(data_dir_name(), p@),
        r is Err ==> fails_with(r, msg_no_home()),
{
    base_dir_from_home(home_dir())
}

/// The labels of the offered directories: home, desktop, documents,
/// downloads.
pub open spec fn quick_labels() -> Seq<Seq<char>> {
    seq!["用户目录"@, "桌面"@, "文档"@, "下载"@]
}

/// The offered directories that could be found, labelled, in a fixed order.
pub open spec fn spec_quick_candidates(dirs: Seq<Option<Seq<char>>>) -> Seq<(Seq<char>, Seq<char>)>
    decreases dirs.len(),
{
    if dirs.len() == 0 {
        Seq::empty()
    } else {
        let rest = spec_quick_candidates(dirs.drop_last());
        match dirs.last() {
            Some(p) => rest.push((quick_labels()[dirs.len() - 1], p)),
            None => rest,
        }
    }
}

/// The view of a list of offered directories.
pub open spec fn quick_views(v: Seq<QuickPath>) -> Seq<(Seq<char>, Seq<char>)> {
    v.map_values(|q: QuickPath| (q.label@, q.path@))
}

fn push_quick(v: &mut Vec<QuickPath>, label: &str, dir: Option<String>)
    ensures
        dir matches Some(d) ==> quick_views(final(v)@) == quick_views(old(v)@).push((label@, d@)),
        dir is None ==> final(v)@ == old(v)@,
{
    match dir {
        Some(d) => {
            let ghost before = v@;
            v.push(QuickPath { label: label.to_owned(), path: d });
            assert(quick_views(v@) =~= quick_views(before).push((label@, v@.last().path@)));
        },
        None => {},
    }
}

/// Labels the well-known directories that were found: home, desktop,
/// documents and downloads, in that order.
pub fn quick_path_candidates(
    home: Option<String>,
    desktop: Option<String>,
    documents: Option<String>,
    downloads: Option<String>,
) -> (r: Vec<QuickPath>)
    ensures
        quick_views(r@) == spec_quick_candidates(seq![
            crate::paths::opt_view(home),
            crate::paths::opt_view(desktop),
            crate::paths::opt_view(documents),
            crate::paths::opt_view(downloads),
        ]),
{
    let ghost dirs = seq![
        crate::paths::opt_view(home),
        crate::paths::opt_view(desktop),
        crate::paths::opt_view(documents),
        crate::paths::opt_view(downloads),
    ];
    let mut r: Vec<QuickPath> = Vec::new();
    assert(quick_views(r@) =~= spec_quick_candidates(dirs.take(0)));
    push_quick(&mut r, "用户目录", home);
    assert(dirs.take(1).drop_last() =~= dirs.take(0));
    assert(quick_views(r@) == spec_quick_candidates(dirs.take(1)));
    push_quick(&mut r, "桌面", desktop);
    assert(dirs.take(2).drop_last() =~= dirs.take(1));
    assert(quick_views(r@) == spec_quick_candidates(dirs.take(2)));
    push_quick(&mut r, "文档", documents);
    assert(dirs.take(3).drop_last() =~= dirs.take(2));
    assert(quick_views(r@) == spec_quick_candidates(dirs.take(3)));
    push_quick(&mut r, "下载", downloads);
    assert(dirs.take(4).drop_last() =~= dirs.take(3));
    assert(dirs.take(4) =~= dirs);
    r
}

/// The entries of `s` whose flag in `keep` is set, in order.
pub open spec fn keep_where<T>(s: Seq<T>, keep: Seq<bool>) -> Seq<T>
    decreases s.len(),
{
    if s.len() == 0 || keep.len() == 0 {
        Seq::empty()
    } else {
        let rest = keep_where(s.drop_last(), keep.drop_last());
        if keep.last() { rest.push(s.last()) } else { rest }
    }
}

/// Keeps the offered directories that exist (`exists[i]` tells whether
/// candidate `i` does), in order.
pub fn keep_existing(candidates: &Vec<QuickPath>, exists: &Vec<bool>) -> (r: Vec<QuickPath>)
    requires
        exists.len() == candidates.len(),
    ensures
        quick_views(r@) == keep_where(quick_views(candidates@), exists@),
{
    let ghost cands = quick_views(candidates@);
    let mut kept: Vec<QuickPath> = Vec::new();
    let mut i: usize = 0;
    while i < candidates.len()
        invariant
            0 <= i <= candidates.len(),
            exists.len() == candidates.len(),
            cands == quick_views(candidates@),
            quick_views(kept@) == keep_where(cands.take(i as int), exists@.take(i as int)),
        decreases candidates.len() - i,
    {
        assert(cands.take(i + 1).drop_last() =~= cands.take(i as int));
        assert(exists@.take(i + 1).drop_last() =~= exists@.take(i as int));
        if exists[i] {
            let ghost before = kept@;
            kept.push(QuickPath { label: candidates[i].label.clone(), path: candidates[i].path.clone() });
            assert(quick_views(kept@) =~= quick_views(before).push(cands[i as int]));
        }
        i = i + 1;
    }
    assert(cands.take(candidates.len() as int) =~= cands);
    assert(exists@.take(candidates.len() as int) =~= exists@);
    kept
}

/// The well-known directories offered for watching: home, desktop,
/// documents and downloads, each if it can be found and exists, in that
/// order. Which are found and exist is the environment's and the disk's
/// answer; the labelling is `quick_path_candidates` and the filter is
/// `keep_existing`.
pub fn get_quick_paths() -> (r: Vec<QuickPath>)
    ensures
        exists|dirs: Seq<Option<Seq<char>>>, keep: Seq<bool>|
            dirs.len() == 4 && keep.len() == spec_quick_candidates(dirs).len()
            && #[trigger] quick_views(r@) == keep_where(spec_quick_candidates(dirs), keep),
{
    let h = home_dir();
    let d = desktop_dir();
    let doc = document_dir();
    let dl = download_dir();
    let ghost dirs = seq![
        crate::paths::opt_view(h),
        crate::paths::opt_view(d),
        crate::paths::opt_view(doc),
        crate::paths::opt_view(dl),
    ];
    let candidates = quick_path_candidates(h, d, doc, dl);
    let mut exists: Vec<bool> = Vec::new();
    let mut i: usize = 0;
    while i < candidates.len()
        invariant
            0 <= i <= candidates.len(),
            exists.len() == i,
        decreases candidates.len() - i,
    {
        exists.push(crate::paths::path_exists(candidates[i].path.as_str()));
        i = i + 1;
    }
    let kept = keep_existing(&candidates, &exists);
    assert(quick_views(kept@) == keep_where(spec_quick_candidates(dirs), exists@));
    kept
}

/// Whether a character is Unicode `White_Space`, the white space that
/// `str::trim` removes.
pub open spec fn is_white_space(c: char) -> bool {
    let v = c as int;
    (9 <= v <= 13) || v == 0x20 || v == 0x85 || v == 0xA0 || v == 0x1680 || (0x2000 <= v <= 0x200A)
        || v == 0x2028 || v == 0x2029 || v == 0x202F || v == 0x205F || v == 0x3000
}

/// `s` without its leading white space.
pub open spec fn spec_trim_start(s: Seq<char>) -> Seq<char>
    decreases s.len(),
{
    if s.len() > 0 && is_white_space(s[0]) {
        spec_trim_start(s.drop_first())
    } else {
        s
    }
}

/// `s` without its trailing white space.
pub open spec fn spec_trim_end(s: Seq<char>) -> Seq<char>
    decreases s.len(),
{
    if s.len() > 0 && is_white_space(s.last()) {
        spec_trim_end(s.drop_last())
    } else {
        s
    }
}

/// `s` without leading and trailing white space.
pub open spec fn spec_trim(s: Seq<char>) -> Seq<char> {
    spec_trim_end(spec_trim_start(s))
}

fn is_white_space_char(c: char) -> (r: bool)
    ensures
        r == is_white_space(c),
{
    let v = c as u32;
    (9 <= v && v <= 13) || v == 0x20 || v == 0x85 || v == 0xA0 || v == 0x1680 || (0x2000 <= v && v <= 0x200A)
        || v == 0x2028 || v == 0x2029 || v == 0x202F || v == 0x205F || v == 0x3000
}

/// The text without leading and trailing Unicode `White_Space`, as
/// `str::trim` gives it.
fn trim_text(s: &str) -> (r: String)
    ensures
        r@ == spec_trim(s@),
{
    let n = s.unicode_len();
    let mut i: usize = 0;
    assert(s@.subrange(0, n as int) =~= s@);
    while i < n && is_white_space_char(s.get_char(i))
        invariant
            0 <= i <= n,
            n == s@.len(),
            spec_trim_start(s@) == spec_trim_start(s@.subrange(i as int, n as int)),
        decreases n - i,
    {
        let ghost t = s@.subrange(i as int, n as int);
        assert(t.drop_first() =~= s@.subrange(i + 1, n as int));
        i = i + 1;
    }
    let ghost front = s@.subrange(i as int, n as int);
    assert(spec_trim_start(front) == front) by {
        if i < n {
            assert(front[0] == s@[i as int]);
        }
    }
    let mut j: usize = n;
    assert(s@.subrange(i as int, j as int) =~= front);
    while j > i && is_white_space_char(s.get_char(j - 1))
        invariant
            i <= j <= n,
            n == s@.len(),
            spec_trim_end(front) == spec_trim_end(s@.subrange(i as int, j as int)),
        decreases j - i,
    {
        let ghost t = s@.subrange(i as int, j as int);
        assert(t.last() == s@[j - 1]);
        assert(t.drop_last() =~= s@.subrange(i as int, j - 1));
        j = j - 1;
    }
    let ghost back = s@.subrange(i as int, j as int);
    assert(spec_trim_end(back) == back) by {
        if j > i {
            assert(back.last() == s@[j - 1]);
        }
    }
    s.substring_char(i, j).to_owned()
}

/// Message when the watch path is empty.
pub open spec fn msg_empty_watch_path() -> Seq<char> {
    "监控路径不能为空"@
}

/// Trims a watch path typed in by the user; an empty one is refused.
pub fn validate_watch_path(path: &str) -> (r: Result<String, String>)
    ensures
        spec_trim(path@).len() > 0 ==> (r matches Ok(t) && t@ == spec_trim(path@)),
        spec_trim(path@).len() == 0 ==> (r matches Err(m) && m@ == msg_empty_watch_path()),
{
    let t = trim_text(path);
    if t.unicode_len() == 0 {
        Err("监控路径不能为空".to_owned())
    } else {
        Ok(t)
    }
}

/// Message when an existing watch path cannot be resolved.
pub open spec fn msg_unresolvable(path: Seq<char>, reason: Seq<char>) -> Seq<char> {
    "无法解析路径 "@ + path + ": "@ + reason
}

/// The view of a string result.
pub open spec fn result_view(r: Result<String, String>) -> Result<Seq<char>, Seq<char>> {
    match r {
        Ok(s) => Ok(s@),
        Err(e) => Err(e@),
    }
}

/// What an absolute watch path resolves to, given whether it exists and
/// what canonicalising it gave: an existing path its canonical form, a
/// missing one itself.
pub open spec fn spec_canonical_watch_path(
    resolved: Seq<char>,
    exists: bool,
    canonical: Result<Seq<char>, Seq<char>>,
) -> Result<Seq<char>, Seq<char>> {
    if exists {
        match canonical {
            Ok(c) => Ok(c),
            Err(reason) => Err(msg_unresolvable(resolved, reason)),
        }
    } else {
        Ok(resolved)
    }
}

/// Resolves an absolute watch path from the file-system answers for it.
pub fn canonical_watch_path(resolved: &str, exists: bool, canonical: Result<String, String>) -> (r: Result<String, String>)
    ensures
        result_view(r) == spec_canonical_watch_path(resolved@, exists, result_view(canonical)),
{
    if exists {
        match canonical {
            Ok(c) => Ok(c),
            Err(reason) => {
                let mut m = crate::text::concat3("无法解析路径 ", resolved, ": ");
                m.append(reason.as_str());
                Err(m)
            },
        }
    } else {
        Ok(resolved.to_owned())
    }
}

/// Whether `r` is what resolving a watch path gives when the path's
/// existence is `exists` and canonicalising it gives `canonical`: the
/// normalised form of the resolved path, or the same error.
pub open spec fn watch_path_outcome(
    resolved: Seq<char>,
    exists: bool,
    canonical: Result<Seq<char>, Seq<char>>,
    r: Result<Seq<char>, Seq<char>>,
) -> bool {
    match spec_canonical_watch_path(resolved, exists, canonical) {
        Ok(q) => r matches Ok(p) && crate::paths::is_normalized_form(p, q),
        Err(m) => r == Err::<Seq<char>, Seq<char>>(m),
    }
}

/// Resolves an absolute watch path: its canonical form if it exists, then
/// normalised; an error when an existing path cannot be canonicalised.
pub fn resolve_watch_path(resolved: &str) -> (r: Result<String, String>)
    ensures
        exists|e: bool, c: Result<Seq<char>, Seq<char>>| #[trigger] watch_path_outcome(resolved@, e, c, result_view(r)),
{
    let exists = crate::paths::path_exists(resolved);
    let canonical = if exists {
        crate::paths::path_canonicalize(resolved)
    } else {
        Ok(resolved.to_owned())
    };
    let ghost cv = result_view(canonical);
    let r = match canonical_watch_path(resolved, exists, canonical) {
        Ok(c) => Ok(crate::paths::normalize_fs_path(c.as_str())),
        Err(m) => Err(m),
    };
    assert(watch_path_outcome(resolved@, exists, cv, result_view(r)));
    r
}

/// Message when the path to watch does not exist.
pub open spec fn msg_watch_path_missing(path: Seq<char>) -> Seq<char> {
    "watch path does not exist: "@ + path
}

/// Watching needs a path that exists.
pub fn require_watch_path(exists: bool, path: &str) -> (r: Result<(), OpenRollbackError>)
    ensures
        exists ==> r is Ok,
        !exists ==> (r matches Err(OpenRollbackError::Watcher(m)) && m@ == msg_watch_path_missing(path@)),
{
    if exists {
        Ok(())
    } else {
        Err(OpenRollbackError::Watcher(crate::text::concat2("watch path does not exist: ", path)))
    }
}

/// Changes can only be queued by hand while a watcher runs.
pub fn require_watcher(running: bool) -> (r: Result<(), OpenRollbackError>)
    ensures
        running ==> r is Ok,
        !running ==> (r matches Err(OpenRollbackError::Watcher(m)) && m@ == "watcher not started"@),
{
    if running {
        Ok(())
    } else {
        Err(OpenRollbackError::Watcher("watcher not started".to_owned()))
    }
}

} // verus!
