//! A time-bounded cache for the answers of the repository: commit lists by
//! branch name, author lists and branch lists by repository path.
//!
//! An entry is served while it is younger than the cache duration. Expiry
//! is decided when an entry is read; an expired entry stays where it is
//! until it is overwritten or the cache is cleared. Times are whole seconds.

use crate::models::CommitInfo;
use vstd::prelude::*;

verus! {

/// A cached value and the time at which it was stored.
pub struct CacheEntry<T> {
    pub data: T,
    pub timestamp: u64,
}

/// Whether an entry stored at `timestamp` is still served at `now`: its age
/// is less than `duration`. A clock reading before `timestamp` serves
/// nothing.
pub open spec fn is_fresh(timestamp: u64, now: u64, duration: u64) -> bool {
    timestamp <= now && now - timestamp < duration
}

/// What a keyspace serves for `key` at `now`: the stored value, if there is
/// an entry for `key` and it is fresh.
pub open spec fn cached<T>(
    entries: Map<Seq<char>, CacheEntry<T>>,
    key: Seq<char>,
    now: u64,
    duration: u64,
) -> Option<T> {
    if entries.contains_key(key) && is_fresh(entries[key].timestamp, now, duration) {
        Some(entries[key].data)
    } else {
        None
    }
}

/// Whether the reference that a lookup returned is what the keyspace
/// serves.
pub open spec fn serves<T>(found: Option<&T>, served: Option<T>) -> bool {
    match found {
        Some(data) => served == Some(*data),
        None => served is None,
    }
}

struct Slot<T> {
    key: String,
    entry: CacheEntry<T>,
}

/// The first slot from `from` on that holds `key`, or the number of slots
/// when none does.
spec fn slot_index<T>(slots: Seq<Slot<T>>, key: Seq<char>, from: int) -> int
    decreases slots.len() - from,
{
    if from >= slots.len() {
        slots.len() as int
    } else if slots[from].key@ == key {
        from
    } else {
        slot_index(slots, key, from + 1)
    }
}

/// The mapping that a list of slots stands for: a key maps to the entry of
/// the first slot that holds it.
spec fn slots_map<T>(slots: Seq<Slot<T>>) -> Map<Seq<char>, CacheEntry<T>> {
    Map::new(
        |k: Seq<char>| slot_index(slots, k, 0) < slots.len(),
        |k: Seq<char>| slots[slot_index(slots, k, 0)].entry,
    )
}

proof fn lemma_slot_index<T>(slots: Seq<Slot<T>>, key: Seq<char>, from: int)
    requires
        0 <= from <= slots.len(),
    ensures
        from <= slot_index(slots, key, from) <= slots.len(),
        slot_index(slots, key, from) < slots.len() ==> slots[slot_index(slots, key, from)].key@
            == key,
        forall|j: int| from <= j < slot_index(slots, key, from) ==> (#[trigger] slots[j]).key@ != key,
    decreases slots.len() - from,
{
    if from < slots.len() && slots[from].key@ != key {
        lemma_slot_index(slots, key, from + 1);
    }
}

/// The first slot that holds a key is settled by the keys before it.
proof fn lemma_slot_index_is<T>(slots: Seq<Slot<T>>, key: Seq<char>, from: int, at: int)
    requires
        0 <= from <= at <= slots.len(),
        forall|j: int| from <= j < at ==> (#[trigger] slots[j]).key@ != key,
        at < slots.len() ==> slots[at].key@ == key,
    ensures
        slot_index(slots, key, from) == at,
    decreases at - from,
{
    if from < at {
        lemma_slot_index_is(slots, key, from + 1, at);
    }
}

/// One keyspace: a mapping from keys to entries. A write first looks for the
/// key and overwrites its slot, so no key is held twice.
struct Keyspace<T> {
    slots: Vec<Slot<T>>,
}

impl<T> Keyspace<T> {
    spec fn entries(&self) -> Map<Seq<char>, CacheEntry<T>> {
        slots_map(self.slots@)
    }

    fn new() -> (keyspace: Keyspace<T>)
        ensures
            keyspace.entries() == Map::<Seq<char>, CacheEntry<T>>::empty(),
    {
        let keyspace = Keyspace { slots: Vec::new() };
        keyspace
    }

    /// The slot that holds `key`, or the number of slots when none does.
    fn find(&self, key: &String) -> (i: usize)
        ensures
            i == slot_index(self.slots@, key@, 0),
            i <= self.slots@.len(),
            i < self.slots@.len() <==> self.entries().contains_key(key@),
            i < self.slots@.len() ==> self.entries()[key@] == self.slots@[i as int].entry,
    {
        let mut i: usize = 0;
        while i < self.slots.len()
            invariant
                i <= self.slots@.len(),
                slot_index(self.slots@, key@, 0) == slot_index(self.slots@, key@, i as int),
            decreases self.slots.len() - i,
        {
            if self.slots[i].key == *key {
                return i;
            }
            i = i + 1;
        }
        i
    }

    fn get(&self, key: &str) -> (found: Option<&CacheEntry<T>>)
        ensures
            found is Some == self.entries().contains_key(key@),
            found matches Some(entry) ==> *entry == self.entries()[key@],
    {
        let owned = key.to_owned();
        let i = self.find(&owned);
        if i < self.slots.len() {
            Some(&self.slots[i].entry)
        } else {
            None
        }
    }

    fn insert(&mut self, key: String, entry: CacheEntry<T>)
        ensures
            final(self).entries() == old(self).entries().insert(key@, entry),
    {
        let i = self.find(&key);
        let ghost before = self.slots@;
        let ghost name = key@;
        proof {
            lemma_slot_index(before, name, 0);
        }
        if i < self.slots.len() {
            self.slots.set(i, Slot { key, entry });
        } else {
            self.slots.push(Slot { key, entry });
        }
        proof {
            let after = self.slots@;
            let wanted = slots_map(before).insert(name, entry);
            assert forall|k: Seq<char>| #[trigger]
                slots_map(after).dom().contains(k) == wanted.dom().contains(k) && (slots_map(
                    after,
                ).dom().contains(k) ==> slots_map(after)[k] == wanted[k]) by {
                lemma_slot_index(before, k, 0);
                let at = slot_index(before, k, 0);
                if k == name {
                    lemma_slot_index_is(after, k, 0, i as int);
                } else if at < before.len() {
                    lemma_slot_index_is(after, k, 0, at);
                } else {
                    lemma_slot_index_is(after, k, 0, after.len() as int);
                }
            }
        }
    }

    fn clear(&mut self)
        ensures
            final(self).entries() == Map::<Seq<char>, CacheEntry<T>>::empty(),
    {
        self.slots.clear();
    }
}

/// `std::time::SystemTime`, carried from the clock to the conversion and not
/// looked into.
#[verifier::external_type_specification]
#[verifier::external_body]
pub struct ExSystemTime(std::time::SystemTime);

/// Reads the system clock with `SystemTime::now`. Nothing is claimed of the
/// reading: two readings need not even be in order.
#[verifier::external_body]
fn clock_reading() -> (reading: std::time::SystemTime) {
    std::time::SystemTime::now()
}

/// The time from the Unix epoch to `reading`, by `SystemTime::duration_since`;
/// `None` for a reading before the epoch. Nothing is claimed of the result.
#[verifier::external_body]
fn since_epoch(reading: &std::time::SystemTime) -> (elapsed: Option<std::time::Duration>) {
    match reading.duration_since(std::time::UNIX_EPOCH) {
        Ok(elapsed) => Some(elapsed),
        Err(_) => None,
    }
}

/// The whole seconds of `elapsed`, by `Duration::as_secs`. Nothing is
/// claimed of the result.
#[verifier::external_body]
fn whole_seconds(elapsed: &std::time::Duration) -> (seconds: u64) {
    elapsed.as_secs()
}

/// The system clock's reading in whole seconds since the Unix epoch, or 0
/// for a clock set before it.
fn unix_time() -> u64 {
    let reading = clock_reading();
    match since_epoch(&reading) {
        Some(elapsed) => whole_seconds(&elapsed),
        None => 0,
    }
}

/// The cache: three keyspaces that share one duration and nothing else.
pub struct Cache {
    commits: Keyspace<Vec<CommitInfo>>,
    authors: Keyspace<Vec<String>>,
    branches: Keyspace<Vec<String>>,
    cache_duration: u64,
}

impl Cache {
    /// The commit lists held, fresh or not, by branch name.
    pub closed spec fn commits(&self) -> Map<Seq<char>, CacheEntry<Vec<CommitInfo>>> {
        self.commits.entries()
    }

    /// The author lists held, fresh or not, by repository path.
    pub closed spec fn authors(&self) -> Map<Seq<char>, CacheEntry<Vec<String>>> {
        self.authors.entries()
    }

    /// The branch lists held, fresh or not, by repository path.
    pub closed spec fn branches(&self) -> Map<Seq<char>, CacheEntry<Vec<String>>> {
        self.branches.entries()
    }

    /// The age, in seconds, from which an entry is no longer served.
    pub closed spec fn cache_duration(&self) -> u64 {
        self.cache_duration
    }

    /// An empty cache with a duration of 300 seconds.
    pub fn new() -> (cache: Cache)
        ensures
            cache.commits() == Map::<Seq<char>, CacheEntry<Vec<CommitInfo>>>::empty(),
            cache.authors() == Map::<Seq<char>, CacheEntry<Vec<String>>>::empty(),
            cache.branches() == Map::<Seq<char>, CacheEntry<Vec<String>>>::empty(),
            cache.cache_duration() == 300,
    {
        Cache {
            commits: Keyspace::new(),
            authors: Keyspace::new(),
            branches: Keyspace::new(),
            cache_duration: 300,
        }
    }

    /// The commits cached for `branch`, as served at the time `now`.
    pub fn get_commits_at(&self, branch: &str, now: u64) -> (found: Option<&Vec<CommitInfo>>)
        ensures
            serves(found, cached(self.commits(), branch@, now, self.cache_duration())),
    {
        match self.commits.get(branch) {
            Some(entry) => if entry.timestamp <= now && now - entry.timestamp
                < self.cache_duration {
                Some(&entry.data)
            } else {
                None
            },
            None => None,
        }
    }

    /// Stores `commits` for `branch` with the timestamp `now`, in place of
    /// whatever was there.
    pub fn set_commits_at(&mut self, branch: String, commits: Vec<CommitInfo>, now: u64)
        ensures
            final(self).commits() == old(self).commits().insert(
                branch@,
                CacheEntry { data: commits, timestamp: now },
            ),
            final(self).authors() == old(self).authors(),
            final(self).branches() == old(self).branches(),
            final(self).cache_duration() == old(self).cache_duration(),
    {
        self.commits.insert(branch, CacheEntry { data: commits, timestamp: now });
    }

    /// The authors cached for `repo_path`, as served at the time `now`.
    pub fn get_authors_at(&self, repo_path: &str, now: u64) -> (found: Option<&Vec<String>>)
        ensures
            serves(found, cached(self.authors(), repo_path@, now, self.cache_duration())),
    {
        match self.authors.get(repo_path) {
            Some(entry) => if entry.timestamp <= now && now - entry.timestamp
                < self.cache_duration {
                Some(&entry.data)
            } else {
                None
            },
            None => None,
        }
    }

    /// Stores `authors` for `repo_path` with the timestamp `now`, in place
    /// of whatever was there.
    pub fn set_authors_at(&mut self, repo_path: String, authors: Vec<String>, now: u64)
        ensures
            final(self).authors() == old(self).authors().insert(
                repo_path@,
                CacheEntry { data: authors, timestamp: now },
            ),
            final(self).commits() == old(self).commits(),
            final(self).branches() == old(self).branches(),
            final(self).cache_duration() == old(self).cache_duration(),
    {
        self.authors.insert(repo_path, CacheEntry { data: authors, timestamp: now });
    }

    /// The branches cached for `repo_path`, as served at the time `now`.
    pub fn get_branches_at(&self, repo_path: &str, now: u64) -> (found: Option<&Vec<String>>)
        ensures
            serves(found, cached(self.branches(), repo_path@, now, self.cache_duration())),
    {
        match self.branches.get(repo_path) {
            Some(entry) => if entry.timestamp <= now && now - entry.timestamp
                < self.cache_duration {
                Some(&entry.data)
            } else {
                None
            },
            None => None,
        }
    }

    /// Stores `branches` for `repo_path` with the timestamp `now`, in place
    /// of whatever was there.
    pub fn set_branches_at(&mut self, repo_path: String, branches: Vec<String>, now: u64)
        ensures
            final(self).branches() == old(self).branches().insert(
                repo_path@,
                CacheEntry { data: branches, timestamp: now },
            ),
            final(self).commits() == old(self).commits(),
            final(self).authors() == old(self).authors(),
            final(self).cache_duration() == old(self).cache_duration(),
    {
        self.branches.insert(repo_path, CacheEntry { data: branches, timestamp: now });
    }

    /// The commits cached for `branch`, as served at some reading of the
    /// system clock.
    pub fn get_commits(&self, branch: &str) -> (found: Option<&Vec<CommitInfo>>)
        ensures
            exists|now: u64|
                serves(
                    found,
                    #[trigger] cached(self.commits(), branch@, now, self.cache_duration()),
                ),
    {
        let now = unix_time();
        self.get_commits_at(branch, now)
    }

    /// Stores `commits` for `branch` with a reading of the system clock as
    /// timestamp.
    pub fn set_commits(&mut self, branch: String, commits: Vec<CommitInfo>)
        ensures
            exists|now: u64|
                final(self).commits() == old(self).commits().insert(
                    branch@,
                    #[trigger] stamped(commits, now),
                ),
            final(self).authors() == old(self).authors(),
            final(self).branches() == old(self).branches(),
            final(self).cache_duration() == old(self).cache_duration(),
    {
        let now = unix_time();
        assert(stamped(commits, now) == CacheEntry { data: commits, timestamp: now });
        self.set_commits_at(branch, commits, now);
    }

    /// The authors cached for `repo_path`, as served at some reading of the
    /// system clock.
    pub fn get_authors(&self, repo_path: &str) -> (found: Option<&Vec<String>>)
        ensures
            exists|now: u64|
                serves(
                    found,
                    #[trigger] cached(self.authors(), repo_path@, now, self.cache_duration()),
                ),
    {
        let now = unix_time();
        self.get_authors_at(repo_path, now)
    }

    /// Stores `authors` for `repo_path` with a reading of the system clock
    /// as timestamp.
    pub fn set_authors(&mut self, repo_path: String, authors: Vec<String>)
        ensures
            exists|now: u64|
                final(self).authors() == old(self).authors().insert(
                    repo_path@,
                    #[trigger] stamped(authors, now),
                ),
            final(self).commits() == old(self).commits(),
            final(self).branches() == old(self).branches(),
            final(self).cache_duration() == old(self).cache_duration(),
    {
        let now = unix_time();
        assert(stamped(authors, now) == CacheEntry { data: authors, timestamp: now });
        self.set_authors_at(repo_path, authors, now);
    }

    /// The branches cached for `repo_path`, as served at some reading of
    /// the system clock.
    pub fn get_branches(&self, repo_path: &str) -> (found: Option<&Vec<String>>)
        ensures
            exists|now: u64|
                serves(
                    found,
                    #[trigger] cached(self.branches(), repo_path@, now, self.cache_duration()),
                ),
    {
        let now = unix_time();
        self.get_branches_at(repo_path, now)
    }

    /// Stores `branches` for `repo_path` with a reading of the system clock
    /// as timestamp.
    pub fn set_branches(&mut self, repo_path: String, branches: Vec<String>)
        ensures
            exists|now: u64|
                final(self).branches() == old(self).branches().insert(
                    repo_path@,
                    #[trigger] stamped(branches, now),
                ),
            final(self).commits() == old(self).commits(),
            final(self).authors() == old(self).authors(),
            final(self).cache_duration() == old(self).cache_duration(),
    {
        let now = unix_time();
        assert(stamped(branches, now) == CacheEntry { data: branches, timestamp: now });
        self.set_branches_at(repo_path, branches, now);
    }

    /// Empties all three keyspaces. The duration stays.
    pub fn clear(&mut self)
        ensures
            final(self).commits() == Map::<Seq<char>, CacheEntry<Vec<CommitInfo>>>::empty(),
            final(self).authors() == Map::<Seq<char>, CacheEntry<Vec<String>>>::empty(),
            final(self).branches() == Map::<Seq<char>, CacheEntry<Vec<String>>>::empty(),
            final(self).cache_duration() == old(self).cache_duration(),
    {
        self.commits.clear();
        self.authors.clear();
        self.branches.clear();
    }

    /// Sets the duration, in seconds, for all three keyspaces. What is held
    /// stays.
    pub fn set_cache_duration(&mut self, seconds: u64)
        ensures
            final(self).cache_duration() == seconds,
            final(self).commits() == old(self).commits(),
            final(self).authors() == old(self).authors(),
            final(self).branches() == old(self).branches(),
    {
        self.cache_duration = seconds;
    }
}

/// The entry that holds `data` with the timestamp `now`.
pub open spec fn stamped<T>(data: T, now: u64) -> CacheEntry<T> {
    CacheEntry { data, timestamp: now }
}

/// A value that was stored is served unchanged as long as its age is less
/// than the duration.
pub proof fn lemma_set_then_get<T>(
    entries: Map<Seq<char>, CacheEntry<T>>,
    key: Seq<char>,
    data: T,
    stored_at: u64,
    now: u64,
    duration: u64,
)
    requires
        stored_at <= now,
        now - stored_at < duration,
    ensures
        cached(entries.insert(key, stamped(data, stored_at)), key, now, duration) == Some(data),
{
}

/// Once the duration has elapsed since a value was stored, it is no longer
/// served.
pub proof fn lemma_get_after_expiry<T>(
    entries: Map<Seq<char>, CacheEntry<T>>,
    key: Seq<char>,
    data: T,
    stored_at: u64,
    now: u64,
    duration: u64,
)
    requires
        now - stored_at >= duration,
    ensures
        cached(entries.insert(key, stamped(data, stored_at)), key, now, duration) is None,
{
}

/// A keyspace that was cleared serves nothing, whatever the key and the
/// time.
pub proof fn lemma_get_after_clear<T>(key: Seq<char>, now: u64, duration: u64)
    ensures
        cached(Map::<Seq<char>, CacheEntry<T>>::empty(), key, now, duration) is None,
{
}

/// Storing under one key changes nothing of what is served under another.
pub proof fn lemma_set_keeps_other_keys<T>(
    entries: Map<Seq<char>, CacheEntry<T>>,
    key: Seq<char>,
    entry: CacheEntry<T>,
    other: Seq<char>,
    now: u64,
    duration: u64,
)
    requires
        other != key,
    ensures
        cached(entries.insert(key, entry), other, now, duration) == cached(
            entries,
            other,
            now,
            duration,
        ),
{
}

} // verus!
