//! Properties that hold across the inspection steps.
use crate::census::{census_of, count_kind, lemma_count_zero, lemma_counts_sum, EntryKind};
use crate::inspect::{
    accepts, answer_of, canonical_of, directory_verdict_of, display_of, file_verdict_of, plan_of,
    symlink_verdict_of, MetadataResult, Plan, Resolution, Verdict,
};
use crate::outcome::{Outcome, TargetKind};
use vstd::prelude::*;

verus! {

/// A path that does not exist ends the run as not found, whatever kind of path
/// it was meant to be, with an exit code that no other outcome has.
pub proof fn law_missing_path_is_not_found(meta: MetadataResult, other: Outcome)
    requires
        meta is NotFound,
        other != Outcome::NotFound,
    ensures
        plan_of(meta) == Plan::Report(Outcome::NotFound),
        Outcome::NotFound.code() == 11,
        other.code() != Outcome::NotFound.code(),
{
}

/// A directory without entries is reported empty, with exit code zero, when no
/// deletion was requested.
pub proof fn law_empty_directory_is_empty(entries: Seq<EntryKind>)
    requires
        entries.len() == 0,
    ensures
        census_of(entries) matches Some(c) && c.total == 0 && directory_verdict_of(c, false)
            == Verdict::Finish(Outcome::Empty(TargetKind::Directory)),
        Outcome::Empty(TargetKind::Directory).code() == 0,
{
    assert(!(exists|i: int| 0 <= i < entries.len() && entries[i] == EntryKind::Other));
}

/// A directory holding one file, one subdirectory and one symbolic link counts
/// one of each, three in all, and is non-empty.
pub proof fn law_one_of_each(entries: Seq<EntryKind>)
    requires
        entries.len() == 3,
        count_kind(entries, EntryKind::Directory) == 1,
        count_kind(entries, EntryKind::File) == 1,
        count_kind(entries, EntryKind::Symlink) == 1,
    ensures
        census_of(entries) matches Some(c) && c.directories == 1 && c.files == 1 && c.symlinks
            == 1 && c.total == 3 && directory_verdict_of(c, false) == Verdict::Finish(
            Outcome::NonEmptyDirectory(c),
        ) && directory_verdict_of(c, true) == Verdict::Finish(Outcome::NonEmptyDirectory(c)),
{
    lemma_counts_sum(entries);
    lemma_count_zero(entries, EntryKind::Other);
}

/// A file of zero bytes is empty, with exit code zero when no deletion was
/// requested; a file of `len > 0` bytes is non-empty and reports `len`.
pub proof fn law_file_emptiness(len: u64, delete_if_empty: bool)
    ensures
        len == 0 ==> file_verdict_of(len, false) == Verdict::Finish(
            Outcome::Empty(TargetKind::File),
        ) && Outcome::Empty(TargetKind::File).code() == 0,
        len == 0 && delete_if_empty ==> file_verdict_of(len, delete_if_empty) == Verdict::Confirm(
            TargetKind::File,
        ),
        len > 0 ==> file_verdict_of(len, delete_if_empty) == Verdict::Finish(
            Outcome::NonEmptyFile(len),
        ) && Outcome::NonEmptyFile(len).code() != 0,
{
}

/// A symbolic link whose target exists is non-empty, whatever the target
/// holds and whether or not deletion was requested; it is never offered for
/// deletion.
pub proof fn law_resolving_symlink_is_non_empty(delete_if_empty: bool)
    ensures
        symlink_verdict_of(true, delete_if_empty) == Verdict::Finish(Outcome::ResolvingSymlink),
        Outcome::ResolvingSymlink.code() != 0,
{
}

/// A symbolic link whose target does not exist is empty: left in place with
/// exit code zero without a deletion request, and, with one, removed itself
/// when the answer is `y`.
pub proof fn law_dangling_symlink_is_empty(line: Seq<char>)
    requires
        accepts(line),
    ensures
        symlink_verdict_of(false, false) == Verdict::Finish(Outcome::Empty(TargetKind::Symlink)),
        symlink_verdict_of(false, true) == Verdict::Confirm(TargetKind::Symlink),
        answer_of(TargetKind::Symlink, line) == Outcome::Deleted(TargetKind::Symlink),
        Outcome::Deleted(TargetKind::Symlink).code() == 0,
{
}

/// Any answer other than `y` declines: nothing is deleted and the run ends
/// with the declined code of the target's kind, for directories, files and
/// symbolic links alike.
pub proof fn law_decline_deletes_nothing(kind: TargetKind, line: Seq<char>)
    requires
        !accepts(line),
    ensures
        answer_of(kind, line) == Outcome::Declined(kind),
        !(answer_of(kind, line) is Deleted),
        answer_of(kind, line).code() == match kind {
            TargetKind::Directory => 32i32,
            TargetKind::File => 22i32,
            TargetKind::Symlink => 42i32,
        },
{
}

/// A path that cannot be canonicalized because it or its target does not
/// exist does not end the run: it is shown as it was given.
pub proof fn law_unresolved_path_shows_raw(raw: Seq<char>)
    ensures
        canonical_of(Resolution::NotFound) == Ok::<Option<Seq<char>>, Seq<char>>(None),
        display_of(raw, None) == raw,
{
}

} // verus!
