//! Counting the immediate entries of a directory by kind.
use vstd::prelude::*;

verus! {

/// The type of a filesystem entry, as a stat call that does not follow a final
/// symbolic link reports it.
#[derive(Clone, Copy, Debug, PartialEq, Eq, Structural)]
pub enum EntryKind {
    Directory,
    File,
    Symlink,
    /// A device node, a socket, a FIFO or anything else.
    Other,
}

/// How many immediate entries of a directory are directories, files and
/// symbolic links.
#[derive(Clone, Copy, Debug, PartialEq, Eq, Structural)]
pub struct DirectoryCensus {
    pub directories: u64,
    pub files: u64,
    pub symlinks: u64,
    pub total: u64,
}

impl DirectoryCensus {
    /// The total is the sum of the three counts.
    pub open spec fn wf(&self) -> bool {
        self.total == self.directories + self.files + self.symlinks
    }
}

/// How many entries of `s` have kind `k`.
pub open spec fn count_kind(s: Seq<EntryKind>, k: EntryKind) -> nat
    decreases s.len(),
{
    if s.len() == 0 {
        0
    } else {
        count_kind(s.drop_last(), k) + if s.last() == k { 1nat } else { 0nat }
    }
}

/// The census of a listing: `None` when an entry is of another kind than the
/// three counted ones, since emptiness is then not defined.
pub open spec fn census_of(s: Seq<EntryKind>) -> Option<DirectoryCensus> {
    if exists|i: int| 0 <= i < s.len() && s[i] == EntryKind::Other {
        None
    } else {
        Some(DirectoryCensus {
            directories: count_kind(s, EntryKind::Directory) as u64,
            files: count_kind(s, EntryKind::File) as u64,
            symlinks: count_kind(s, EntryKind::Symlink) as u64,
            total: s.len() as u64,
        })
    }
}

proof fn lemma_count_step(s: Seq<EntryKind>, i: int, k: EntryKind)
    requires
        0 <= i < s.len(),
    ensures
        count_kind(s.take(i + 1), k) == count_kind(s.take(i), k) + if s[i] == k { 1nat } else { 0nat },
{
    assert(s.take(i + 1).drop_last() =~= s.take(i));
}

/// The four counts of a listing add up to its length.
pub proof fn lemma_counts_sum(s: Seq<EntryKind>)
    ensures
        count_kind(s, EntryKind::Directory) + count_kind(s, EntryKind::File) + count_kind(
            s,
            EntryKind::Symlink,
        ) + count_kind(s, EntryKind::Other) == s.len(),
    decreases s.len(),
{
    if s.len() > 0 {
        lemma_counts_sum(s.drop_last());
    }
}

/// No entry has kind `k` exactly when the count of `k` is zero.
pub proof fn lemma_count_zero(s: Seq<EntryKind>, k: EntryKind)
    ensures
        (count_kind(s, k) == 0) <==> !(exists|i: int| 0 <= i < s.len() && s[i] == k),
    decreases s.len(),
{
    if s.len() > 0 {
        let t = s.drop_last();
        lemma_count_zero(t, k);
        if exists|i: int| 0 <= i < s.len() && s[i] == k {
            let i = choose|i: int| 0 <= i < s.len() && s[i] == k;
            if i < s.len() - 1 {
                assert(t[i] == k);
            }
        }
        if exists|i: int| 0 <= i < t.len() && t[i] == k {
            let i = choose|i: int| 0 <= i < t.len() && t[i] == k;
            assert(s[i] == k);
        }
    }
}

/// Counts the entries of a directory listing by kind. Returns `None` as soon as
/// an entry is neither a directory, a file nor a symbolic link.
pub fn census(kinds: &Vec<EntryKind>) -> (r: Option<DirectoryCensus>)
    ensures
        r == census_of(kinds@),
        r matches Some(c) ==> c.wf(),
{
    let mut directories: u64 = 0;
    let mut files: u64 = 0;
    let mut symlinks: u64 = 0;
    let mut i: usize = 0;
    while i < kinds.len()
        invariant
            i <= kinds@.len(),
            directories == count_kind(kinds@.take(i as int), EntryKind::Directory),
            files == count_kind(kinds@.take(i as int), EntryKind::File),
            symlinks == count_kind(kinds@.take(i as int), EntryKind::Symlink),
            directories + files + symlinks == i,
            forall|j: int| 0 <= j < i ==> kinds@[j] != EntryKind::Other,
        decreases kinds.len() - i,
    {
        proof {
            lemma_count_step(kinds@, i as int, EntryKind::Directory);
            lemma_count_step(kinds@, i as int, EntryKind::File);
            lemma_count_step(kinds@, i as int, EntryKind::Symlink);
        }
        match kinds[i] {
            EntryKind::Directory => directories = directories + 1,
            EntryKind::File => files = files + 1,
            EntryKind::Symlink => symlinks = symlinks + 1,
            EntryKind::Other => {
                return None;
            },
        }
        i = i + 1;
    }
    assert(kinds@.take(i as int) =~= kinds@);
    let total = directories + files + symlinks;
    Some(DirectoryCensus { directories, files, symlinks, total })
}

} // verus!
