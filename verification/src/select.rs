use vstd::prelude::*;

use crate::errors::LogError;
use crate::text::{ends_with, ends_with_str};

verus! {

/// Number of bytes of the tail window read from a file picked out of a
/// directory.
pub const MAX_READ_SIZE: u64 = 1024 * 1024;

/// One immediate child of the scanned directory, as plain values: its full
/// path, its file name (the final component), whether it is a regular file,
/// and its last-modified time in milliseconds since the Unix epoch.
pub struct DirEntry {
    pub path: String,
    pub name: String,
    pub is_file: bool,
    pub modified_ms: i64,
}

/// A directory entry is a candidate log file: a regular file whose name has
/// the extension `log` or `txt` (case-sensitive) after a non-empty stem.
pub open spec fn candidate(e: DirEntry) -> bool {
    &&& e.is_file
    &&& e.name@.len() >= 5
    &&& ends_with(e.name@, ".log"@) || ends_with(e.name@, ".txt"@)
}

/// The entry at index `i` is the one the selector picks: a candidate whose
/// modification time no candidate exceeds, and the first one among equals.
pub open spec fn is_selected(es: Seq<DirEntry>, i: int) -> bool {
    &&& 0 <= i < es.len()
    &&& candidate(es[i])
    &&& forall|j: int|
        0 <= j < es.len() && candidate(#[trigger] es[j]) ==> es[j].modified_ms <= es[i].modified_ms
    &&& forall|j: int|
        0 <= j < i && candidate(#[trigger] es[j]) ==> es[j].modified_ms < es[i].modified_ms
}

fn is_candidate(e: &DirEntry) -> (r: bool)
    ensures
        r == candidate(*e),
{
    e.is_file && e.name.unicode_len() >= 5 && (ends_with_str(e.name.as_str(), ".log")
        || ends_with_str(e.name.as_str(), ".txt"))
}

/// Picks the most recently modified `.log` or `.txt` regular file among the
/// immediate entries of a directory; ties keep the first-seen candidate.
/// Yields `NotFound` when no entry is a candidate.
pub fn select_latest(entries: &Vec<DirEntry>) -> (r: Result<String, LogError>)
    ensures
        match r {
            Ok(path) => exists|i: int|
                #[trigger] is_selected(entries@, i) && path@ == entries@[i].path@,
            Err(e) => e == LogError::NotFound && forall|i: int|
                0 <= i < entries@.len() ==> !candidate(#[trigger] entries@[i]),
        },
{
    let mut best: Option<usize> = None;
    let mut idx: usize = 0;
    while idx < entries.len()
        invariant
            idx <= entries.len(),
            match best {
                Some(b) => {
                    &&& b < idx
                    &&& candidate(entries@[b as int])
                    &&& forall|j: int|
                        0 <= j < idx && candidate(#[trigger] entries@[j])
                            ==> entries@[j].modified_ms <= entries@[b as int].modified_ms
                    &&& forall|j: int|
                        0 <= j < b && candidate(#[trigger] entries@[j]) ==> entries@[j].modified_ms
                            < entries@[b as int].modified_ms
                },
                None => forall|j: int| 0 <= j < idx ==> !candidate(#[trigger] entries@[j]),
            },
        decreases entries.len() - idx,
    {
        if is_candidate(&entries[idx]) {
            match best {
                Some(b) => {
                    if entries[idx].modified_ms > entries[b].modified_ms {
                        best = Some(idx);
                    }
                },
                None => {
                    best = Some(idx);
                },
            }
        }
        idx += 1;
    }
    match best {
        Some(b) => {
            proof {
                assert(is_selected(entries@, b as int));
            }
            Ok(entries[b].path.clone())
        },
        None => Err(LogError::NotFound),
    }
}

} // verus!
