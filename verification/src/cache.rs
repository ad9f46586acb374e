//! The cache on disk: which of its files are written, and which of its
//! entries are removed.

use crate::text::str_eq;
use crate::timing::{Timestamp, NANOS_PER_SECOND};
use vstd::prelude::*;

verus! {

/// How many seconds an entry can lie in the cache unchanged before it is
/// cleared out: a week.
pub const MAX_CACHE_AGE: u64 = 7 * 24 * 60 * 60;

/// What is done with a file whose content is to be `new`.
#[derive(Debug, Clone, Copy, PartialEq, Eq, Structural)]
pub enum WriteAction {
    /// The file holds the content already and is left alone, so that the
    /// time of its last change stays what it is.
    Unchanged,
    /// The file is written.
    Changed,
}

/// What is done with a file that holds `current`, or is not there, when
/// its content is to be `new`: it is left alone where it holds `new`
/// already, unless `force` asks for it to be written anyway.
pub open spec fn write_decision(current: Option<Seq<char>>, new: Seq<char>, force: bool) -> WriteAction {
    if !force && current == Some(new) {
        WriteAction::Unchanged
    } else {
        WriteAction::Changed
    }
}

/// What the file holds once `action` has been carried out.
pub open spec fn content_after(current: Option<Seq<char>>, new: Seq<char>, action: WriteAction) -> Option<
    Seq<char>,
> {
    match action {
        WriteAction::Unchanged => current,
        WriteAction::Changed => Some(new),
    }
}

/// Decides whether a file is written whose content is to be `new`.
///
/// `current` is what the file holds, and is missing where there is no file
/// or where it cannot be read.
pub fn write_if_changed(current: Option<&str>, new: &str, force: bool) -> (r: WriteAction)
    ensures
        r == write_decision(
            match current {
                Some(text) => Some(text@),
                None => None,
            },
            new@,
            force,
        ),
{
    if force {
        return WriteAction::Changed;
    }
    match current {
        Some(text) => if str_eq(text, new) {
            WriteAction::Unchanged
        } else {
            WriteAction::Changed
        },
        None => WriteAction::Changed,
    }
}

/// Whatever the file held, it holds `new` once the decision has been
/// carried out. A file that holds `new` is then left alone, and one that is
/// to hold something else is written.
pub proof fn lemma_write_round_trip(
    current: Option<Seq<char>>,
    new: Seq<char>,
    other: Seq<char>,
    force: bool,
)
    ensures
        content_after(current, new, write_decision(current, new, force)) == Some(new),
        write_decision(Some(new), new, false) == WriteAction::Unchanged,
        other != new ==> write_decision(Some(new), other, false) == WriteAction::Changed,
{
}

/// Whether the directory of a package is removed after the package could
/// not be generated in it: only where the directory lies in the cache and
/// was made for this very package. A directory of the user's, and one that
/// was in the cache before, are never removed.
pub fn cleanup_after_failure(using_cache: bool, created: bool) -> (remove: bool)
    ensures
        remove == (using_cache && created),
{
    using_cache && created
}

/// An entry of the directory that the generated packages are kept in.
#[derive(Debug, Clone, Copy, PartialEq, Eq)]
pub struct CacheEntry {
    pub is_dir: bool,
    /// When the entry itself was last changed, where that can be read.
    pub modified: Option<Timestamp>,
}

/// `entry` is cleared out at the time `now`: it is a directory, and was
/// last changed `max_age` seconds ago or longer, or at a time that cannot be
/// read. What lies inside the directory plays no part.
pub open spec fn is_stale(entry: CacheEntry, now: Timestamp, max_age: u64) -> bool {
    entry.is_dir && match entry.modified {
        Some(t) => t.when() <= now.when() - max_age * NANOS_PER_SECOND,
        None => true,
    }
}

/// The places, among the first `n` of `entries`, of those that are cleared
/// out, in their order.
pub open spec fn stale_places(entries: Seq<CacheEntry>, n: int, now: Timestamp, max_age: u64) -> Seq<
    usize,
>
    decreases n,
{
    if n <= 0 || n > entries.len() {
        Seq::empty()
    } else if is_stale(entries[n - 1], now, max_age) {
        stale_places(entries, n - 1, now, max_age).push((n - 1) as usize)
    } else {
        stale_places(entries, n - 1, now, max_age)
    }
}

/// Decides whether `entry` is cleared out of the cache at the time `now`.
pub fn should_remove(entry: &CacheEntry, now: &Timestamp, max_age: u64) -> (remove: bool)
    ensures
        remove == is_stale(*entry, *now, max_age),
{
    if !entry.is_dir {
        return false;
    }
    match &entry.modified {
        Some(t) => t.is_older_than(now, max_age),
        None => true,
    }
}

/// Picks the entries of the cache that are cleared out at the time `now`:
/// the directories that were last changed `max_age` seconds ago or longer,
/// and those of which this cannot be read. Gives their places in `entries`.
pub fn gc_cache(entries: &Vec<CacheEntry>, now: Timestamp, max_age: u64) -> (places: Vec<usize>)
    ensures
        places@ == stale_places(entries@, entries@.len() as int, now, max_age),
{
    let mut places: Vec<usize> = Vec::new();
    let mut i: usize = 0;
    while i < entries.len()
        invariant
            i <= entries.len(),
            places@ == stale_places(entries@, i as int, now, max_age),
        decreases entries.len() - i,
    {
        if should_remove(&entries[i], &now, max_age) {
            places.push(i);
        }
        i += 1;
    }
    places
}

/// An entry is cleared out exactly when it is stale: the places picked are
/// those of the stale entries, and no others.
pub proof fn lemma_gc_picks_stale(
    entries: Seq<CacheEntry>,
    n: int,
    now: Timestamp,
    max_age: u64,
    i: int,
)
    requires
        0 <= n <= entries.len(),
        n <= usize::MAX,
        0 <= i <= usize::MAX,
    ensures
        stale_places(entries, n, now, max_age).contains(i as usize) <==> i < n && is_stale(
            entries[i],
            now,
            max_age,
        ),
    decreases n,
{
    if n > 0 {
        lemma_gc_picks_stale(entries, n - 1, now, max_age, i);
        let before = stale_places(entries, n - 1, now, max_age);
        let after = stale_places(entries, n, now, max_age);
        if is_stale(entries[n - 1], now, max_age) {
            assert(after[after.len() - 1] == (n - 1) as usize);
            if after.contains(i as usize) {
                let j = choose|j: int| 0 <= j < after.len() && after[j] == i as usize;
                if j < before.len() {
                    assert(before[j] == i as usize);
                }
            }
            if i < n - 1 && is_stale(entries[i], now, max_age) {
                let j = choose|j: int| 0 <= j < before.len() && before[j] == i as usize;
                assert(after[j] == i as usize);
            }
        }
    }
}

/// A directory that was last changed before `now - max_age` is cleared
/// out, and one that was changed after it survives, whatever else the cache
/// holds.
pub proof fn lemma_gc_by_age(
    entries: Seq<CacheEntry>,
    now: Timestamp,
    max_age: u64,
    i: int,
    changed: Timestamp,
)
    requires
        0 <= i < entries.len() <= usize::MAX,
        entries[i] == (CacheEntry { is_dir: true, modified: Some(changed) }),
    ensures
        changed.when() < now.when() - max_age * NANOS_PER_SECOND ==> stale_places(
            entries,
            entries.len() as int,
            now,
            max_age,
        ).contains(i as usize),
        changed.when() > now.when() - max_age * NANOS_PER_SECOND ==> !stale_places(
            entries,
            entries.len() as int,
            now,
            max_age,
        ).contains(i as usize),
{
    lemma_gc_picks_stale(entries, entries.len() as int, now, max_age, i);
}

} // verus!
