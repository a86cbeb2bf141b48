//! Which backups go when a directory holds more of them than it may keep.
//!
//! The embedding lists the directory and removes files; what is listed here
//! is decided from the plain facts of each entry.

use crate::text::{contains, contains_text};
use vstd::prelude::*;

verus! {

/// What the embedding found out about one entry of a directory.
#[derive(Debug, PartialEq, Eq)]
pub struct DirectoryEntry {
    /// Where the entry lies.
    pub path: String,
    /// Whether it is a regular file.
    pub is_file: bool,
    /// Its name, where the name is valid Unicode.
    pub file_name: Option<String>,
    /// When it was last modified, in nanoseconds since the Unix epoch,
    /// where the file system tells.
    pub modified: Option<u128>,
}

/// Whether an entry is a backup that the clean-up considers: a file whose
/// name holds `-backup-` and whose age is known.
pub open spec fn is_backup(entry: DirectoryEntry) -> bool {
    &&& entry.is_file
    &&& entry.file_name matches Some(name) && contains_text(name@, "-backup-"@)
    &&& entry.modified is Some
}

/// Whether the entry at `a` goes before the entry at `b`: it was modified
/// earlier, or at the same time and is listed earlier.
pub open spec fn older(entries: Seq<DirectoryEntry>, a: int, b: int) -> bool {
    let first = entries[a].modified->0;
    let second = entries[b].modified->0;
    first < second || (first == second && a < b)
}

/// How many of the entries are backups.
pub open spec fn backup_count(entries: Seq<DirectoryEntry>) -> nat
    decreases entries.len(),
{
    if entries.len() == 0 {
        0
    } else {
        let counted: nat = if is_backup(entries.last()) {
            1
        } else {
            0
        };
        backup_count(entries.drop_last()) + counted
    }
}

/// How many backups are too many.
pub open spec fn excess(entries: Seq<DirectoryEntry>, max_backups: usize) -> nat {
    if backup_count(entries) > max_backups {
        (backup_count(entries) - max_backups) as nat
    } else {
        0
    }
}

/// Whether `doomed` lists, by their places in `entries`, the backups that
/// go: as many as are too many, the oldest of all, and the oldest first.
pub open spec fn removes_oldest(
    entries: Seq<DirectoryEntry>,
    max_backups: usize,
    doomed: Seq<usize>,
) -> bool {
    &&& doomed.len() == excess(entries, max_backups)
    &&& forall|j: int| 0 <= j < doomed.len() ==> (#[trigger] doomed[j]) < entries.len()
    &&& forall|j: int| 0 <= j < doomed.len() ==> is_backup(entries[(#[trigger] doomed[j]) as int])
    &&& forall|a: int, b: int|
        0 <= a < b < doomed.len() ==> older(
            entries,
            (#[trigger] doomed[a]) as int,
            (#[trigger] doomed[b]) as int,
        )
    &&& forall|j: int, m: int|
        0 <= j < doomed.len() && 0 <= m < entries.len() && is_backup(#[trigger] entries[m])
            && !doomed.contains(m as usize) ==> older(entries, (#[trigger] doomed[j]) as int, m)
}

/// Whether an entry is a backup that the clean-up considers.
pub fn is_backup_entry(entry: &DirectoryEntry) -> (backup: bool)
    ensures
        backup == is_backup(*entry),
{
    if !entry.is_file || entry.modified.is_none() {
        return false;
    }
    match &entry.file_name {
        Some(name) => contains(name.as_str(), "-backup-"),
        None => false,
    }
}

/// How many flags are set.
spec fn count_set(flags: Seq<bool>) -> nat
    decreases flags.len(),
{
    if flags.len() == 0 {
        0
    } else {
        let counted: nat = if flags.last() {
            1
        } else {
            0
        };
        count_set(flags.drop_last()) + counted
    }
}

proof fn lemma_count_set_all(flags: Seq<bool>)
    requires
        forall|i: int| 0 <= i < flags.len() ==> flags[i],
    ensures
        count_set(flags) == flags.len(),
    decreases flags.len(),
{
    if flags.len() > 0 {
        let init = flags.drop_last();
        assert forall|i: int| 0 <= i < init.len() implies init[i] by {
            assert(init[i] == flags[i]);
        }
        lemma_count_set_all(init);
        assert(flags.last() == flags[flags.len() - 1]);
    }
}

proof fn lemma_count_set_grows(flags: Seq<bool>, at: int)
    requires
        0 <= at < flags.len(),
        !flags[at],
    ensures
        count_set(flags.update(at, true)) == count_set(flags) + 1,
    decreases flags.len(),
{
    let changed = flags.update(at, true);
    if at == flags.len() - 1 {
        assert(changed.drop_last() =~= flags.drop_last());
    } else {
        lemma_count_set_grows(flags.drop_last(), at);
        assert(changed.drop_last() =~= flags.drop_last().update(at, true));
    }
}

proof fn lemma_count_set_none(flags: Seq<bool>)
    requires
        forall|i: int| 0 <= i < flags.len() ==> !flags[i],
    ensures
        count_set(flags) == 0,
    decreases flags.len(),
{
    if flags.len() > 0 {
        let init = flags.drop_last();
        assert forall|i: int| 0 <= i < init.len() implies !init[i] by {
            assert(init[i] == flags[i]);
        }
        lemma_count_set_none(init);
    }
}

/// Whether `found` lists the places of all backups of `entries`, in the
/// order of the listing.
spec fn lists_backups(entries: Seq<DirectoryEntry>, found: Seq<usize>) -> bool {
    &&& found.len() == backup_count(entries)
    &&& forall|c: int| 0 <= c < found.len() ==> (#[trigger] found[c]) < entries.len()
    &&& forall|c: int| 0 <= c < found.len() ==> is_backup(entries[(#[trigger] found[c]) as int])
    &&& forall|c: int, d: int| 0 <= c < d < found.len() ==> #[trigger] found[c] < #[trigger] found[d]
    &&& forall|m: int|
        0 <= m < entries.len() && is_backup(#[trigger] entries[m]) ==> exists|c: int|
            0 <= c < found.len() && #[trigger] found[c] == m
}

fn backup_indices(entries: &Vec<DirectoryEntry>) -> (found: Vec<usize>)
    ensures
        lists_backups(entries@, found@),
{
    let mut found: Vec<usize> = Vec::new();
    let mut i: usize = 0;
    assert(entries@.take(0) =~= Seq::empty());
    while i < entries.len()
        invariant
            i <= entries@.len(),
            found@.len() == backup_count(entries@.take(i as int)),
            forall|c: int| 0 <= c < found@.len() ==> (#[trigger] found@[c]) < i,
            forall|c: int|
                0 <= c < found@.len() ==> is_backup(entries@[(#[trigger] found@[c]) as int]),
            forall|c: int, d: int|
                0 <= c < d < found@.len() ==> #[trigger] found@[c] < #[trigger] found@[d],
            forall|m: int|
                0 <= m < i && is_backup(#[trigger] entries@[m]) ==> exists|c: int|
                    0 <= c < found@.len() && #[trigger] found@[c] == m,
        decreases entries.len() - i,
    {
        let ghost before = found@;
        proof {
            assert(entries@.take(i + 1).drop_last() =~= entries@.take(i as int));
            assert(entries@.take(i + 1).last() == entries@[i as int]);
        }
        if is_backup_entry(&entries[i]) {
            found.push(i);
            proof {
                assert forall|m: int| 0 <= m < i + 1 && is_backup(#[trigger] entries@[m]) implies exists|
                    c: int,
                | 0 <= c < found@.len() && #[trigger] found@[c] == m by {
                    if m < i {
                        let c = choose|c: int| 0 <= c < before.len() && #[trigger] before[c] == m;
                        assert(found@[c] == m);
                    } else {
                        assert(found@[found@.len() - 1] == m);
                    }
                }
            }
        } else {
            proof {
                assert forall|m: int| 0 <= m < i + 1 && is_backup(#[trigger] entries@[m]) implies exists|
                    c: int,
                | 0 <= c < found@.len() && #[trigger] found@[c] == m by {
                    let c = choose|c: int| 0 <= c < before.len() && #[trigger] before[c] == m;
                    assert(found@[c] == m);
                }
            }
        }
        i += 1;
    }
    assert(entries@.take(entries@.len() as int) =~= entries@);
    found
}

fn modified_at(entries: &Vec<DirectoryEntry>, at: usize) -> (time: u128)
    requires
        at < entries@.len(),
        entries@[at as int].modified is Some,
    ensures
        time == entries@[at as int].modified->0,
{
    match entries[at].modified {
        Some(time) => time,
        None => vstd::pervasive::unreached(),
    }
}

fn oldest_left(entries: &Vec<DirectoryEntry>, found: &Vec<usize>, gone: &Vec<bool>) -> (best: Option<
    usize,
>)
    requires
        lists_backups(entries@, found@),
        gone@.len() == found@.len(),
    ensures
        match best {
            Some(c) => c < found@.len() && !gone@[c as int] && forall|d: int|
                0 <= d < found@.len() && !(#[trigger] gone@[d]) && d != c ==> older(
                    entries@,
                    found@[c as int] as int,
                    found@[d] as int,
                ),
            None => forall|d: int| 0 <= d < gone@.len() ==> gone@[d],
        },
{
    let mut best: Option<usize> = None;
    let mut d: usize = 0;
    while d < found.len()
        invariant
            d <= found@.len(),
            lists_backups(entries@, found@),
            gone@.len() == found@.len(),
            match best {
                Some(c) => c < d && !gone@[c as int] && forall|e: int|
                    0 <= e < d && !(#[trigger] gone@[e]) && e != c ==> older(
                        entries@,
                        found@[c as int] as int,
                        found@[e] as int,
                    ),
                None => forall|e: int| 0 <= e < d ==> gone@[e],
            },
        decreases found.len() - d,
    {
        if !gone[d] {
            match best {
                None => {
                    best = Some(d);
                },
                Some(c) => {
                    assert(found@[c as int] < found@[d as int]);
                    let held = modified_at(entries, found[c]);
                    let seen = modified_at(entries, found[d]);
                    if seen < held {
                        assert forall|e: int|
                            0 <= e < d + 1 && !(#[trigger] gone@[e]) && e != d implies older(
                            entries@,
                            found@[d as int] as int,
                            found@[e] as int,
                        ) by {
                            if e != c {
                                assert(older(entries@, found@[c as int] as int, found@[e] as int));
                            }
                        }
                        best = Some(d);
                    }
                },
            }
        }
        d += 1;
    }
    best
}

/// Picks the backups that go so that at most `max_backups` stay: the
/// oldest ones, listed oldest first by their places in `entries`. Backups
/// of the same age go in the order of the listing.
pub fn backups_to_remove(entries: &Vec<DirectoryEntry>, max_backups: usize) -> (doomed: Vec<usize>)
    ensures
        removes_oldest(entries@, max_backups, doomed@),
{
    let found = backup_indices(entries);
    let surplus = if found.len() > max_backups {
        found.len() - max_backups
    } else {
        0
    };
    let mut gone: Vec<bool> = Vec::new();
    let mut n: usize = 0;
    while n < found.len()
        invariant
            n <= found@.len(),
            gone@.len() == n,
            forall|c: int| 0 <= c < n ==> !gone@[c],
        decreases found.len() - n,
    {
        gone.push(false);
        n += 1;
    }
    proof {
        lemma_count_set_none(gone@);
    }
    let mut doomed: Vec<usize> = Vec::new();
    let mut r: usize = 0;
    while r < surplus
        invariant
            r <= surplus <= found@.len(),
            surplus == excess(entries@, max_backups),
            lists_backups(entries@, found@),
            gone@.len() == found@.len(),
            doomed@.len() == r,
            count_set(gone@) == r,
            forall|j: int|
                0 <= j < r ==> exists|c: int|
                    0 <= c < found@.len() && gone@[c] && found@[c] == #[trigger] doomed@[j],
            forall|c: int|
                0 <= c < found@.len() && #[trigger] gone@[c] ==> doomed@.contains(found@[c]),
            forall|a: int, b: int|
                0 <= a < b < r ==> older(
                    entries@,
                    (#[trigger] doomed@[a]) as int,
                    (#[trigger] doomed@[b]) as int,
                ),
            forall|j: int, c: int|
                0 <= j < r && 0 <= c < found@.len() && !(#[trigger] gone@[c]) ==> older(
                    entries@,
                    (#[trigger] doomed@[j]) as int,
                    found@[c] as int,
                ),
        decreases surplus - r,
    {
        let pick = match oldest_left(entries, &found, &gone) {
            Some(pick) => pick,
            None => {
                proof {
                    lemma_count_set_all(gone@);
                }
                vstd::pervasive::unreached()
            },
        };
        let ghost gone_before = gone@;
        let ghost doomed_before = doomed@;
        proof {
            lemma_count_set_grows(gone@, pick as int);
        }
        doomed.push(found[pick]);
        gone.set(pick, true);
        proof {
            assert(gone@ =~= gone_before.update(pick as int, true));
            assert forall|j: int| 0 <= j < r + 1 implies exists|c: int|
                0 <= c < found@.len() && gone@[c] && found@[c] == #[trigger] doomed@[j] by {
                if j < r {
                    let c = choose|c: int|
                        0 <= c < found@.len() && gone_before[c] && found@[c] == doomed_before[j];
                    assert(gone@[c] && found@[c] == doomed@[j]);
                } else {
                    assert(gone@[pick as int] && found@[pick as int] == doomed@[j]);
                }
            }
            assert forall|c: int| 0 <= c < found@.len() && #[trigger] gone@[c] implies doomed@.contains(
                found@[c],
            ) by {
                if c == pick {
                    assert(doomed@[r as int] == found@[c]);
                } else {
                    assert(gone_before[c]);
                    let j = choose|j: int|
                        0 <= j < doomed_before.len() && doomed_before[j] == found@[c];
                    assert(doomed@[j] == found@[c]);
                }
            }
            assert forall|a: int, b: int| 0 <= a < b < r + 1 implies older(
                entries@,
                (#[trigger] doomed@[a]) as int,
                (#[trigger] doomed@[b]) as int,
            ) by {
                if b < r {
                    assert(older(entries@, doomed_before[a] as int, doomed_before[b] as int));
                } else {
                    assert(!gone_before[pick as int]);
                    assert(older(entries@, doomed_before[a] as int, found@[pick as int] as int));
                }
            }
            assert forall|j: int, c: int|
                0 <= j < r + 1 && 0 <= c < found@.len() && !(#[trigger] gone@[c]) implies older(
                entries@,
                (#[trigger] doomed@[j]) as int,
                found@[c] as int,
            ) by {
                assert(!gone_before[c]);
                if j < r {
                    assert(older(entries@, doomed_before[j] as int, found@[c] as int));
                }
            }
        }
        r += 1;
    }
    proof {
        assert forall|j: int| 0 <= j < doomed@.len() implies (#[trigger] doomed@[j])
            < entries@.len() by {
            let c = choose|c: int|
                0 <= c < found@.len() && gone@[c] && found@[c] == doomed@[j];
            assert(found@[c] < entries@.len());
        }
        assert forall|j: int| 0 <= j < doomed@.len() implies is_backup(
            entries@[(#[trigger] doomed@[j]) as int],
        ) by {
            let c = choose|c: int|
                0 <= c < found@.len() && gone@[c] && found@[c] == doomed@[j];
            assert(is_backup(entries@[found@[c] as int]));
        }
        assert forall|j: int, m: int|
            0 <= j < doomed@.len() && 0 <= m < entries@.len() && is_backup(#[trigger] entries@[m])
                && !doomed@.contains(m as usize) implies older(
            entries@,
            (#[trigger] doomed@[j]) as int,
            m,
        ) by {
            let c = choose|c: int| 0 <= c < found@.len() && #[trigger] found@[c] == m;
            if gone@[c] {
                assert(doomed@.contains(found@[c]));
            }
            assert(older(entries@, doomed@[j] as int, found@[c] as int));
        }
    }
    doomed
}

} // verus!
