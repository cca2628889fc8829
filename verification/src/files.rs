//! Counts the regular files among the entries of a directory listing.
//!
//! The caller lists a directory and hands over what kind each entry is; the
//! counter returns how many of them are regular files, ignoring directories,
//! symbolic links and special files.

use vstd::prelude::*;

verus! {

/// What a directory entry's metadata marks it as.
#[derive(Clone, Copy, Debug, PartialEq, Eq, Structural)]
pub enum EntryKind {
    /// A regular file.
    File,
    /// A directory.
    Directory,
    /// A symbolic link.
    Symlink,
    /// Anything else (a device, a socket, a pipe).
    Other,
}

/// Whether an entry is a regular file.
pub open spec fn is_regular_file(e: EntryKind) -> bool {
    e == EntryKind::File
}

/// How many entries of the sequence are regular files.
pub open spec fn spec_file_count(s: Seq<EntryKind>) -> nat
    decreases s.len(),
{
    if s.len() == 0 {
        0
    } else {
        spec_file_count(s.drop_last()) + if is_regular_file(s.last()) {
            1nat
        } else {
            0nat
        }
    }
}

/// The sub-sequence of the regular files of a listing, in order.
pub open spec fn regular_files_of(s: Seq<EntryKind>) -> Seq<EntryKind> {
    s.filter(|e: EntryKind| is_regular_file(e))
}

/// Law: the counter counts exactly the regular files. For a listing holding
/// N regular files and any number of directories, symbolic links and other
/// entries, the count equals N: the length of the sub-sequence of regular
/// files.
pub proof fn lemma_file_count_is_filter_len(s: Seq<EntryKind>)
    ensures
        spec_file_count(s) == regular_files_of(s).len(),
    decreases s.len(),
{
    reveal(Seq::filter);
    if s.len() > 0 {
        lemma_file_count_is_filter_len(s.drop_last());
        assert(regular_files_of(s) == if is_regular_file(s.last()) {
            regular_files_of(s.drop_last()).push(s.last())
        } else {
            regular_files_of(s.drop_last())
        });
    }
}

/// Counts the regular files among `entries`.
pub fn count_regular_files(entries: &Vec<EntryKind>) -> (n: usize)
    ensures
        n == spec_file_count(entries@),
{
    let mut n: usize = 0;
    let mut i: usize = 0;
    while i < entries.len()
        invariant
            i <= entries@.len(),
            n == spec_file_count(entries@.subrange(0, i as int)),
            n <= i,
        decreases entries@.len() - i,
    {
        proof {
            assert(entries@.subrange(0, i + 1).drop_last() =~= entries@.subrange(0, i as int));
            assert(entries@.subrange(0, i + 1).last() == entries@[i as int]);
        }
        if entries[i] == EntryKind::File {
            n = n + 1;
        }
        i = i + 1;
    }
    proof {
        assert(entries@.subrange(0, entries@.len() as int) =~= entries@);
    }
    n
}

} // verus!
