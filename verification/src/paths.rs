//! Path text handling: the Windows extended-length prefix, normalisation
//! against the file system, and the few `std::path` queries the engine
//! decides on.

use vstd::prelude::*;

verus! {

/// The Windows extended-length path prefix `\\?\`.
pub open spec fn extended_prefix() -> Seq<char> {
    seq!['\\', '\\', '?', '\\']
}

/// Whether a path text starts with the extended-length prefix.
pub open spec fn has_extended_prefix(s: Seq<char>) -> bool {
    s.len() >= 4 && s.subrange(0, 4) == extended_prefix()
}

/// The extended-length prefix of a network path, `\\?\UNC\`.
pub open spec fn unc_verbatim_prefix() -> Seq<char> {
    seq!['\\', '\\', '?', '\\', 'U', 'N', 'C', '\\']
}

/// Whether a path text is an extended-length network path.
pub open spec fn has_unc_verbatim(s: Seq<char>) -> bool {
    s.len() >= 8 && s.subrange(0, 8) == unc_verbatim_prefix()
}

/// Whether a path text starts with a drive and a separator, as `C:\`.
pub open spec fn is_drive_rooted(s: Seq<char>) -> bool {
    s.len() >= 3 && s[1] == ':' && (s[2] == '\\' || s[2] == '/')
}

/// Whether a path text is anchored at a root: it starts with a separator
/// (a Unix root, a Windows root, network or device path) or with a drive
/// and a separator. Every absolute path, on Unix and on Windows, is.
pub open spec fn is_rooted(s: Seq<char>) -> bool {
    (s.len() > 0 && (s[0] == '/' || s[0] == '\\')) || is_drive_rooted(s)
}

/// A path text with its leading extended-length prefix removed: a network
/// path `\\?\UNC\srv\share` becomes `\\srv\share`, any other
/// `\\?\rest` becomes `rest`; a text without the prefix is left as it is.
pub open spec fn spec_strip_extended(s: Seq<char>) -> Seq<char> {
    if has_unc_verbatim(s) {
        seq!['\\', '\\'] + s.subrange(8, s.len() as int)
    } else if has_extended_prefix(s) {
        s.subrange(4, s.len() as int)
    } else {
        s
    }
}

/// Whether a text carries the prefix twice over: `\\?\` right after
/// `\\?\`, or `?\` as the server of a `\\?\UNC\` path.
pub open spec fn twice_prefixed(s: Seq<char>) -> bool {
    ||| has_extended_prefix(s) && has_extended_prefix(s.subrange(4, s.len() as int))
    ||| has_unc_verbatim(s) && s.len() >= 10 && s[8] == '?' && s[9] == '\\'
}

/// The view of an optional string.
pub open spec fn opt_view(o: Option<String>) -> Option<Seq<char>> {
    match o {
        Some(s) => Some(s@),
        None => None,
    }
}

/// The normalised text of a path, given whether the stripped path exists,
/// what canonicalising it gave, and what making it absolute gave: the
/// canonical form of an existing path, else the absolute form, else the
/// path itself, with the extended-length prefix removed.
pub open spec fn spec_resolve_normalized(
    stripped: Seq<char>,
    exists: bool,
    canonical: Option<Seq<char>>,
    absolute: Option<Seq<char>>,
) -> Seq<char> {
    let resolved = if exists && canonical is Some {
        canonical->0
    } else {
        match absolute {
            Some(a) => a,
            None => stripped,
        }
    };
    spec_strip_extended(resolved)
}

/// Whether an answer of the file system, if there is one, is rooted.
pub open spec fn rooted_answer(a: Option<Seq<char>>) -> bool {
    a matches Some(x) ==> is_rooted(x)
}

/// Whether `r` is what normalising `path` gives for some answers of the
/// file system: the prefix removed, the canonical form taken if the path
/// exists, else the absolute form, the prefix removed again. Canonical and
/// absolute forms are rooted.
pub open spec fn is_normalized_form(r: Seq<char>, path: Seq<char>) -> bool {
    exists|e: bool, c: Option<Seq<char>>, a: Option<Seq<char>>|
        rooted_answer(c) && rooted_answer(a) && r == #[trigger] spec_resolve_normalized(spec_strip_extended(path), e, c, a)
}

fn char_at_is(path: &str, i: usize, c: char) -> (r: bool)
    requires
        i < path@.len(),
    ensures
        r == (path@[i as int] == c),
{
    path.get_char(i) == c
}

/// Removes a leading extended-length prefix (`\\?\UNC\` becomes `\\`,
/// any other `\\?\` goes).
pub fn strip_extended_prefix(path: &str) -> (r: String)
    ensures
        r@ == spec_strip_extended(path@),
{
    let n = path.unicode_len();
    let verbatim = n >= 4 && char_at_is(path, 0, '\\') && char_at_is(path, 1, '\\') && char_at_is(path, 2, '?')
        && char_at_is(path, 3, '\\');
    proof {
        if verbatim {
            assert(path@.subrange(0, 4) =~= extended_prefix());
        } else if n >= 4 && path@.subrange(0, 4) == extended_prefix() {
            assert(path@[0] == path@.subrange(0, 4)[0]);
            assert(path@[1] == path@.subrange(0, 4)[1]);
            assert(path@[2] == path@.subrange(0, 4)[2]);
            assert(path@[3] == path@.subrange(0, 4)[3]);
        }
    }
    let unc = verbatim && n >= 8 && char_at_is(path, 4, 'U') && char_at_is(path, 5, 'N') && char_at_is(path, 6, 'C')
        && char_at_is(path, 7, '\\');
    proof {
        if unc {
            assert(path@.subrange(0, 8) =~= unc_verbatim_prefix());
        } else if n >= 8 && path@.subrange(0, 8) == unc_verbatim_prefix() {
            assert(path@.subrange(0, 4) =~= path@.subrange(0, 8).subrange(0, 4));
            assert(path@.subrange(0, 8).subrange(0, 4) =~= extended_prefix());
            assert(path@[4] == path@.subrange(0, 8)[4]);
            assert(path@[5] == path@.subrange(0, 8)[5]);
            assert(path@[6] == path@.subrange(0, 8)[6]);
            assert(path@[7] == path@.subrange(0, 8)[7]);
        }
    }
    if unc {
        let mut r = "\\\\".to_owned();
        proof {
            reveal_strlit("\\\\");
        }
        r.append(path.substring_char(8, n));
        r
    } else if verbatim {
        path.substring_char(4, n).to_owned()
    } else {
        path.to_owned()
    }
}

/// Whether a path exists on disk (`std::path::Path::exists`).
/// Nothing is stated of the answer: it is what the file system holds now.
#[verifier::external_body]
pub(crate) fn path_exists(path: &str) -> bool {
    std::path::Path::new(path).exists()
}

/// Whether a path names a regular file (`std::path::Path::is_file`).
/// Nothing is stated of the answer: it is what the file system holds now.
#[verifier::external_body]
pub(crate) fn path_is_file(path: &str) -> bool {
    std::path::Path::new(path).is_file()
}

/// Whether a path names a directory (`std::path::Path::is_dir`).
/// Nothing is stated of the answer: it is what the file system holds now.
#[verifier::external_body]
pub(crate) fn path_is_dir(path: &str) -> bool {
    std::path::Path::new(path).is_dir()
}

/// The canonical absolute form of a path (`std::path::Path::canonicalize`),
/// as lossy UTF-8 text, or the text of the I/O error when it fails.
/// Claimed: a canonical form is absolute, so it is rooted. Nothing more is
/// stated of the answer: it depends on the file system.
#[verifier::external_body]
pub(crate) fn path_canonicalize(path: &str) -> (r: Result<String, String>)
    ensures
        r matches Ok(c) ==> is_rooted(c@),
{
    match std::path::Path::new(path).canonicalize() {
        Ok(p) => Ok(p.to_string_lossy().into_owned()),
        Err(e) => Err(e.to_string()),
    }
}

/// The absolute form of a path without touching the file system
/// (`std::path::absolute`), as lossy UTF-8 text, or the text of the error
/// (an empty path, or no current directory). Claimed: an absolute form is
/// rooted. Nothing more is stated: it depends on the current directory.
#[verifier::external_body]
pub(crate) fn path_absolute(path: &str) -> (r: Result<String, String>)
    ensures
        r matches Ok(a) ==> is_rooted(a@),
{
    match std::path::absolute(path) {
        Ok(p) => Ok(p.to_string_lossy().into_owned()),
        Err(e) => Err(e.to_string()),
    }
}

/// Normalises a path given the file-system answers for it.
pub fn resolve_normalized(stripped: &str, exists: bool, canonical: Option<String>, absolute: Option<String>) -> (r: String)
    ensures
        r@ == spec_resolve_normalized(stripped@, exists, opt_view(canonical), opt_view(absolute)),
{
    if exists && canonical.is_some() {
        match canonical {
            Some(c) => strip_extended_prefix(c.as_str()),
            None => strip_extended_prefix(stripped),
        }
    } else {
        match absolute {
            Some(a) => strip_extended_prefix(a.as_str()),
            None => strip_extended_prefix(stripped),
        }
    }
}

/// Normalises a path: removes the `\\?\` prefix, resolves an existing path
/// to its canonical form and any other to its absolute form, and removes
/// the prefix again.
pub fn normalize_fs_path(path: &str) -> (r: String)
    ensures
        is_normalized_form(r@, path@),
{
    let stripped = strip_extended_prefix(path);
    let exists = path_exists(stripped.as_str());
    let canonical = if exists {
        match path_canonicalize(stripped.as_str()) {
            Ok(c) => Some(c),
            Err(_) => None,
        }
    } else {
        None
    };
    let absolute = if exists && canonical.is_some() {
        None
    } else {
        match path_absolute(stripped.as_str()) {
            Ok(a) => Some(a),
            Err(_) => None,
        }
    };
    let ghost c = opt_view(canonical);
    let ghost a = opt_view(absolute);
    let r = resolve_normalized(stripped.as_str(), exists, canonical, absolute);
    assert(r@ == spec_resolve_normalized(spec_strip_extended(path@), exists, c, a));
    r
}

/// A path text without the prefix is left as it is.
pub proof fn lemma_strip_without_prefix(s: Seq<char>)
    requires
        !has_extended_prefix(s),
    ensures
        spec_strip_extended(s) == s,
{
    if has_unc_verbatim(s) {
        assert(s.subrange(0, 4) =~= s.subrange(0, 8).subrange(0, 4));
        assert(s.subrange(0, 8).subrange(0, 4) =~= extended_prefix());
    }
}

/// Whether removing the prefix of a text leaves a rooted text: it has no
/// prefix, or is a network path, or what follows the prefix is rooted (as
/// for `\\?\C:\`).
pub open spec fn keeps_root(s: Seq<char>) -> bool {
    has_extended_prefix(s) && !has_unc_verbatim(s) ==> is_rooted(s.subrange(4, s.len() as int))
}

/// Removing the prefix keeps a rooted path rooted, unless what follows the
/// prefix is not (as for a volume path `\\?\Volume{..}\`).
pub proof fn lemma_strip_keeps_rooted(s: Seq<char>)
    requires
        is_rooted(s),
        keeps_root(s),
    ensures
        is_rooted(spec_strip_extended(s)),
{
    if has_unc_verbatim(s) {
        let r = seq!['\\', '\\'] + s.subrange(8, s.len() as int);
        assert(r[0] == '\\');
    } else if !has_extended_prefix(s) {
        lemma_strip_without_prefix(s);
    }
}

/// The prefix is gone after removing it, unless the text carried it twice
/// over.
pub proof fn lemma_strip_drops_prefix(s: Seq<char>)
    requires
        !twice_prefixed(s),
    ensures
        !has_extended_prefix(spec_strip_extended(s)),
{
    let r = spec_strip_extended(s);
    if has_unc_verbatim(s) {
        if r.len() >= 4 && r.subrange(0, 4) == extended_prefix() {
            assert(r.subrange(0, 4)[2] == r[2]);
            assert(r.subrange(0, 4)[3] == r[3]);
            assert(r[2] == s[8]);
            assert(r[3] == s[9]);
        }
    } else if !has_extended_prefix(s) {
        lemma_strip_without_prefix(s);
    }
}

/// A normalised path is rooted whenever its answers are rooted and keep
/// their root when the prefix goes, except that without any answer it is
/// the path with its prefix removed.
pub proof fn lemma_normalized_rooted(path: Seq<char>, exists: bool, canonical: Option<Seq<char>>, absolute: Option<Seq<char>>)
    requires
        rooted_answer(canonical),
        rooted_answer(absolute),
        canonical matches Some(x) ==> keeps_root(x),
        absolute matches Some(x) ==> keeps_root(x),
        keeps_root(spec_strip_extended(path)),
    ensures
        is_rooted(spec_resolve_normalized(spec_strip_extended(path), exists, canonical, absolute))
            || spec_resolve_normalized(spec_strip_extended(path), exists, canonical, absolute)
            == spec_strip_extended(path),
{
    let stripped = spec_strip_extended(path);
    if exists && canonical is Some {
        lemma_strip_keeps_rooted(canonical->0);
    } else if absolute is Some {
        lemma_strip_keeps_rooted(absolute->0);
    } else if !has_extended_prefix(stripped) {
        lemma_strip_without_prefix(stripped);
    } else {
        assert(stripped[0] == stripped.subrange(0, 4)[0]);
        lemma_strip_keeps_rooted(stripped);
    }
}

/// A normalised path carries no `\\?\` prefix, unless the path or an
/// answer of the file system carried the prefix twice over.
pub proof fn lemma_normalized_without_prefix(path: Seq<char>, exists: bool, canonical: Option<Seq<char>>, absolute: Option<Seq<char>>)
    requires
        !twice_prefixed(spec_strip_extended(path)),
        canonical matches Some(x) ==> !twice_prefixed(x),
        absolute matches Some(x) ==> !twice_prefixed(x),
    ensures
        !has_extended_prefix(spec_resolve_normalized(spec_strip_extended(path), exists, canonical, absolute)),
{
    let stripped = spec_strip_extended(path);
    if exists && canonical is Some {
        lemma_strip_drops_prefix(canonical->0);
    } else if absolute is Some {
        lemma_strip_drops_prefix(absolute->0);
    } else {
        lemma_strip_drops_prefix(stripped);
    }
}

} // verus!
