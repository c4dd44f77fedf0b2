//! Change events, the queue they wait in until a snapshot takes them, and
//! the cache of file contents kept so that deletions can be undone.

use vstd::prelude::*;
use std::collections::VecDeque;
use crate::action::FileAction;
use crate::text::str_eq;

verus! {

/// A change of one file, waiting in the queue.
#[derive(Debug, Clone, PartialEq, Eq)]
pub struct FileChangeEvent {
    pub path: String,
    pub action: FileAction,
    /// SHA-256 (hex) of the file's content before the change.
    pub original_hash: Option<String>,
    /// Where the content before the change was copied to.
    pub staging_backup: Option<String>,
}

/// A copy of an optional string.
pub fn copy_opt_string(o: &Option<String>) -> (r: Option<String>)
    ensures
        r == *o,
{
    match o {
        Some(s) => Some(s.clone()),
        None => None,
    }
}

impl FileChangeEvent {
    /// A copy of the event.
    pub fn copy(&self) -> (r: FileChangeEvent)
        ensures
            r == *self,
    {
        FileChangeEvent {
            path: self.path.clone(),
            action: self.action,
            original_hash: copy_opt_string(&self.original_hash),
            staging_backup: copy_opt_string(&self.staging_backup),
        }
    }
}

/// The first-in, first-out queue of change events.
pub struct EventQueue {
    events: VecDeque<FileChangeEvent>,
}

impl View for EventQueue {
    type V = Seq<FileChangeEvent>;

    closed spec fn view(&self) -> Seq<FileChangeEvent> {
        self.events@
    }
}

impl EventQueue {
    /// An empty queue.
    pub fn new() -> (q: EventQueue)
        ensures
            q@ == Seq::<FileChangeEvent>::empty(),
    {
        EventQueue { events: VecDeque::new() }
    }

    /// Appends an event at the back.
    pub fn push_event(&mut self, event: FileChangeEvent)
        ensures
            final(self)@ == old(self)@.push(event),
    {
        self.events.push_back(event);
    }

    /// Takes every queued event, oldest first, leaving the queue empty.
    pub fn drain(&mut self) -> (r: Vec<FileChangeEvent>)
        ensures
            r@ == old(self)@,
            final(self)@ == Seq::<FileChangeEvent>::empty(),
    {
        let ghost all = self.events@;
        let mut out: Vec<FileChangeEvent> = Vec::new();
        while self.events.len() > 0
            invariant
                out@ + self.events@ == all,
            decreases self.events@.len(),
        {
            match self.events.pop_front() {
                Some(e) => {
                    out.push(e);
                    assert(out@ + self.events@ =~= all);
                },
                None => {},
            }
        }
        assert(self.events@ =~= Seq::<FileChangeEvent>::empty());
        assert(out@ =~= all);
        out
    }

    /// Number of queued events.
    pub fn len(&self) -> (n: usize)
        ensures
            n == self@.len(),
    {
        self.events.len()
    }
}

/// The queue after pushing `pushed` one by one onto `queue`.
pub open spec fn push_all(queue: Seq<FileChangeEvent>, pushed: Seq<FileChangeEvent>) -> Seq<FileChangeEvent>
    decreases pushed.len(),
{
    if pushed.len() == 0 {
        queue
    } else {
        push_all(queue, pushed.drop_last()).push(pushed.last())
    }
}

/// Events pushed one by one wait behind the earlier ones in the order they
/// came, so that the next drain hands them out in that order.
pub proof fn lemma_queue_keeps_order(queue: Seq<FileChangeEvent>, pushed: Seq<FileChangeEvent>)
    ensures
        push_all(queue, pushed) == queue + pushed,
    decreases pushed.len(),
{
    if pushed.len() > 0 {
        lemma_queue_keeps_order(queue, pushed.drop_last());
        assert(queue + pushed =~= (queue + pushed.drop_last()).push(pushed.last()));
    } else {
        assert(queue + pushed =~= queue);
    }
}

/// A copy of a file's content, kept for a later deletion.
#[derive(Debug, Clone, PartialEq, Eq)]
pub struct CachedFile {
    /// SHA-256 (hex) of the content.
    pub hash: String,
    /// Where the content was copied to.
    pub staging_backup: String,
}

impl CachedFile {
    /// A copy of the entry.
    pub fn copy(&self) -> (r: CachedFile)
        ensures
            r == *self,
    {
        CachedFile { hash: self.hash.clone(), staging_backup: self.staging_backup.clone() }
    }
}

/// The keys of a list of cache entries.
pub open spec fn entry_keys(entries: Seq<(String, CachedFile)>) -> Seq<Seq<char>> {
    entries.map_values(|e: (String, CachedFile)| e.0@)
}

/// The map from path to cached copy that a list of entries with distinct
/// keys stands for.
pub open spec fn entries_map(entries: Seq<(String, CachedFile)>) -> Map<Seq<char>, CachedFile> {
    Map::new(
        |k: Seq<char>| entry_keys(entries).contains(k),
        |k: Seq<char>| entries[entry_keys(entries).index_of(k)].1,
    )
}

/// Cached copies of file contents, by normalised path.
pub struct ContentCache {
    entries: Vec<(String, CachedFile)>,
}

impl View for ContentCache {
    type V = Map<Seq<char>, CachedFile>;

    closed spec fn view(&self) -> Map<Seq<char>, CachedFile> {
        entries_map(self.entries@)
    }
}

impl ContentCache {
    #[verifier::type_invariant]
    spec fn keys_unique(self) -> bool {
        entry_keys(self.entries@).no_duplicates()
    }

    /// An empty cache.
    pub fn new() -> (c: ContentCache)
        ensures
            c@ == Map::<Seq<char>, CachedFile>::empty(),
    {
        let c = ContentCache { entries: Vec::new() };
        assert(c@ =~= Map::<Seq<char>, CachedFile>::empty());
        c
    }

    fn find(&self, key: &str) -> (r: Option<usize>)
        ensures
            r matches Some(i) ==> i < self.entries@.len() && self.entries@[i as int].0@ == key@,
            r is None ==> !entry_keys(self.entries@).contains(key@),
    {
        let mut i: usize = 0;
        while i < self.entries.len()
            invariant
                0 <= i <= self.entries@.len(),
                forall|j: int| 0 <= j < i ==> self.entries@[j].0@ != key@,
            decreases self.entries@.len() - i,
        {
            if str_eq(self.entries[i].0.as_str(), key) {
                return Some(i);
            }
            i = i + 1;
        }
        proof {
            if entry_keys(self.entries@).contains(key@) {
                let j = choose|j: int| 0 <= j < entry_keys(self.entries@).len() && entry_keys(self.entries@)[j] == key@;
                assert(self.entries@[j].0@ == key@);
            }
        }
        None
    }

    /// The cached copy for a path, if there is one.
    pub fn get(&self, key: &str) -> (r: Option<CachedFile>)
        ensures
            r == (if self@.contains_key(key@) { Some(self@[key@]) } else { None::<CachedFile> }),
    {
        proof {
            use_type_invariant(self);
        }
        match self.find(key) {
            Some(i) => {
                proof {
                    let keys = entry_keys(self.entries@);
                    assert(keys[i as int] == key@);
                    lemma_index_unique(keys, i as int, key@);
                }
                Some(self.entries[i].1.copy())
            },
            None => None,
        }
    }

    /// The cached copy for a file by its normalised path, else by the path
    /// as reported.
    pub fn lookup(&self, normalized: &str, reported: &str) -> (r: Option<CachedFile>)
        ensures
            self@.contains_key(normalized@) ==> r == Some(self@[normalized@]),
            !self@.contains_key(normalized@) && self@.contains_key(reported@) ==> r == Some(self@[reported@]),
            !self@.contains_key(normalized@) && !self@.contains_key(reported@) ==> r is None,
    {
        match self.get(normalized) {
            Some(c) => Some(c),
            None => self.get(reported),
        }
    }

    /// Number of cached paths.
    pub fn len(&self) -> (n: usize)
        ensures
            n == self@.dom().len(),
    {
        proof {
            use_type_invariant(self);
            let keys = entry_keys(self.entries@);
            assert(self@.dom() =~= keys.to_set());
            keys.unique_seq_to_set();
        }
        self.entries.len()
    }

    /// Caches a copy for a path, replacing any earlier one for it.
    pub fn insert(&mut self, key: String, value: CachedFile)
        ensures
            final(self)@ == old(self)@.insert(key@, value),
    {
        proof {
            use_type_invariant(&*self);
        }
        let ghost old_entries = self.entries@;
        let ghost k = key@;
        let ghost keys = entry_keys(old_entries);
        let found = self.find(key.as_str());
        let mut entries: Vec<(String, CachedFile)> = Vec::new();
        std::mem::swap(&mut entries, &mut self.entries);
        match found {
            Some(i) => {
                let ghost new_entries = old_entries.update(i as int, (key, value));
                proof {
                    assert(entry_keys(new_entries) =~= keys);
                }
                entries.set(i, (key, value));
                self.entries = entries;
                proof {
                    assert(self.entries@ == new_entries);
                    lemma_index_unique(keys, i as int, k);
                    assert forall|kk: Seq<char>| #[trigger] keys.contains(kk) && kk != k
                        implies new_entries[keys.index_of(kk)] == old_entries[keys.index_of(kk)] by {
                        let j = choose|j: int| 0 <= j < keys.len() && keys[j] == kk;
                        lemma_index_unique(keys, j, kk);
                    }
                    assert(entries_map(new_entries) =~= entries_map(old_entries).insert(k, value));
                }
            },
            None => {
                let ghost new_entries = old_entries.push((key, value));
                let ghost nk = entry_keys(new_entries);
                proof {
                    assert(nk =~= keys.push(k));
                    assert(nk.no_duplicates()) by {
                        assert forall|a: int, b: int| 0 <= a < nk.len() && 0 <= b < nk.len() && a != b
                            implies nk[a] != nk[b] by {
                            if a < keys.len() && b < keys.len() {
                            } else if a == keys.len() {
                                assert(nk[b] == keys[b]);
                                assert(keys.contains(keys[b]));
                            } else {
                                assert(nk[a] == keys[a]);
                                assert(keys.contains(keys[a]));
                            }
                        }
                    }
                }
                entries.push((key, value));
                self.entries = entries;
                proof {
                    assert(self.entries@ == new_entries);
                    lemma_index_unique(nk, keys.len() as int, k);
                    assert forall|kk: Seq<char>| #[trigger] keys.contains(kk)
                        implies nk.contains(kk) && nk.index_of(kk) == keys.index_of(kk)
                            && new_entries[nk.index_of(kk)] == old_entries[keys.index_of(kk)] by {
                        let j = choose|j: int| 0 <= j < keys.len() && keys[j] == kk;
                        assert(nk[j] == kk);
                        lemma_index_unique(keys, j, kk);
                        lemma_index_unique(nk, j, kk);
                    }
                    assert forall|kk: Seq<char>| #[trigger] nk.contains(kk)
                        implies keys.contains(kk) || kk == k by {
                        let j = choose|j: int| 0 <= j < nk.len() && nk[j] == kk;
                        if j < keys.len() {
                            assert(keys[j] == kk);
                        }
                    }
                    assert(entries_map(new_entries) =~= entries_map(old_entries).insert(k, value));
                }
            },
        }
    }
}

/// In a list without repeats, the position of an element is where it is.
pub proof fn lemma_index_unique(keys: Seq<Seq<char>>, i: int, k: Seq<char>)
    requires
        keys.no_duplicates(),
        0 <= i < keys.len(),
        keys[i] == k,
    ensures
        keys.contains(k),
        keys.index_of(k) == i,
{
    assert(keys.contains(k));
    let j = keys.index_of(k);
    assert(0 <= j < keys.len() && keys[j] == k);
}

/// Reading the cache after caching a copy for a path gives that copy for
/// the path and leaves every other path as it was.
pub proof fn lemma_cache_read_after_write(
    cache: Map<Seq<char>, CachedFile>,
    key: Seq<char>,
    value: CachedFile,
    other: Seq<char>,
)
    ensures
        cache.insert(key, value).contains_key(key),
        cache.insert(key, value)[key] == value,
        other != key ==> cache.insert(key, value).contains_key(other) == cache.contains_key(other),
        other != key && cache.contains_key(other) ==> cache.insert(key, value)[other] == cache[other],
{
}

} // verus!
