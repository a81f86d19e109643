//! Classification of changed files and tallies of changed lines.

use vstd::prelude::*;

use crate::types::FileStatus;

verus! {

/// One changed file.
pub struct ModifiedFile {
    pub status: FileStatus,
    pub path: String,
    pub additions: Option<u32>,
    pub deletions: Option<u32>,
}

/// The changed files of an execution and where they were read from.
pub struct ModifiedFilesResponse {
    pub files: Vec<ModifiedFile>,
    /// `committed` or `worktree`.
    pub source: String,
    pub commit_sha: Option<String>,
}

/// The status flags git reports for one file of a worktree.
#[derive(Clone, Copy, Debug, PartialEq, Eq, Structural)]
pub struct EntryFlags {
    pub is_new: bool,
    pub is_deleted: bool,
    pub is_modified: bool,
    pub is_renamed: bool,
}

/// How a worktree entry is shown: new before deleted before modified before
/// renamed; an entry with none of these is not shown.
pub open spec fn entry_status(f: EntryFlags) -> Option<FileStatus> {
    if f.is_new {
        Some(FileStatus::Added)
    } else if f.is_deleted {
        Some(FileStatus::Deleted)
    } else if f.is_modified {
        Some(FileStatus::Modified)
    } else if f.is_renamed {
        Some(FileStatus::Renamed)
    } else {
        None
    }
}

/// Classifies a worktree entry; directories (paths ending in `/`) are
/// skipped by the caller.
pub fn classify_entry(f: EntryFlags) -> (r: Option<FileStatus>)
    ensures
        r == entry_status(f),
{
    if f.is_new {
        Some(FileStatus::Added)
    } else if f.is_deleted {
        Some(FileStatus::Deleted)
    } else if f.is_modified {
        Some(FileStatus::Modified)
    } else if f.is_renamed {
        Some(FileStatus::Renamed)
    } else {
        None
    }
}

/// Number of occurrences of `c` among the line origins.
pub open spec fn origin_count(origins: Seq<char>, c: char) -> nat
    decreases origins.len(),
{
    if origins.len() == 0 {
        0
    } else {
        origin_count(origins.drop_last(), c) + if origins.last() == c { 1nat } else { 0nat }
    }
}

/// Counts added (`+`) and deleted (`-`) lines among the origins of a
/// patch's lines; counts saturate at `u32::MAX`.
pub fn tally_lines(origins: &[char]) -> (r: (u32, u32))
    ensures
        r.0 as nat == if origin_count(origins@, '+') > u32::MAX { u32::MAX as nat } else { origin_count(origins@, '+') },
        r.1 as nat == if origin_count(origins@, '-') > u32::MAX { u32::MAX as nat } else { origin_count(origins@, '-') },
{
    let mut adds: u32 = 0;
    let mut dels: u32 = 0;
    let mut i: usize = 0;
    while i < origins.len()
        invariant
            i <= origins@.len(),
            adds as nat == if origin_count(origins@.subrange(0, i as int), '+') > u32::MAX {
                u32::MAX as nat
            } else {
                origin_count(origins@.subrange(0, i as int), '+')
            },
            dels as nat == if origin_count(origins@.subrange(0, i as int), '-') > u32::MAX {
                u32::MAX as nat
            } else {
                origin_count(origins@.subrange(0, i as int), '-')
            },
        decreases origins@.len() - i,
    {
        assert(origins@.subrange(0, i + 1).drop_last() =~= origins@.subrange(0, i as int));
        if origins[i] == '+' {
            adds = adds.saturating_add(1);
        } else if origins[i] == '-' {
            dels = dels.saturating_add(1);
        }
        i = i + 1;
    }
    assert(origins@.subrange(0, origins@.len() as int) =~= origins@);
    (adds, dels)
}

/// A line count as shown: none for zero.
pub fn shown_count(n: u32) -> (r: Option<u32>)
    ensures
        r == if n > 0 { Some(n) } else { None::<u32> },
{
    if n > 0 {
        Some(n)
    } else {
        None
    }
}

} // verus!
