//! The outcomes of inspecting a path, and their process exit codes.
use crate::census::DirectoryCensus;
use vstd::prelude::*;

verus! {

/// The three kinds of target that can be found empty and offered for deletion.
#[derive(Clone, Copy, Debug, PartialEq, Eq, Structural)]
pub enum TargetKind {
    Directory,
    File,
    Symlink,
}

/// How an inspection ended.
#[derive(Clone, Copy, Debug, PartialEq, Eq, Structural)]
pub enum Outcome {
    /// The path does not exist.
    NotFound,
    /// Access to the path was denied.
    PermissionDenied,
    /// An empty directory, an empty file, or a symbolic link whose target does
    /// not exist, left in place because no deletion was requested.
    Empty(TargetKind),
    /// An empty target that was confirmed for deletion: the caller removes it.
    Deleted(TargetKind),
    /// An empty target whose deletion was not confirmed.
    Declined(TargetKind),
    /// A directory with entries, counted by kind.
    NonEmptyDirectory(DirectoryCensus),
    /// A file of the given number of bytes, more than zero.
    NonEmptyFile(u64),
    /// A symbolic link whose target exists, whatever that target holds.
    ResolvingSymlink,
}

impl Outcome {
    /// The process exit code of an outcome: zero for success, and a code of its
    /// own for every other condition.
    pub open spec fn code(self) -> i32 {
        match self {
            Outcome::NotFound => 11,
            Outcome::PermissionDenied => 12,
            Outcome::Empty(_) => 0,
            Outcome::Deleted(_) => 0,
            Outcome::NonEmptyFile(_) => 21,
            Outcome::Declined(TargetKind::File) => 22,
            Outcome::NonEmptyDirectory(_) => 31,
            Outcome::Declined(TargetKind::Directory) => 32,
            Outcome::ResolvingSymlink => 41,
            Outcome::Declined(TargetKind::Symlink) => 42,
        }
    }

    /// The exit code with which the process ends on this outcome.
    pub fn exit_code(&self) -> (r: i32)
        ensures
            r == self.code(),
    {
        match self {
            Outcome::NotFound => 11,
            Outcome::PermissionDenied => 12,
            Outcome::Empty(_) => 0,
            Outcome::Deleted(_) => 0,
            Outcome::NonEmptyFile(_) => 21,
            Outcome::Declined(TargetKind::File) => 22,
            Outcome::NonEmptyDirectory(_) => 31,
            Outcome::Declined(TargetKind::Directory) => 32,
            Outcome::ResolvingSymlink => 41,
            Outcome::Declined(TargetKind::Symlink) => 42,
        }
    }

    /// Whether the caller is to delete the inspected path.
    pub fn deletes(&self) -> (r: bool)
        ensures
            r == (*self is Deleted),
    {
        match self {
            Outcome::Deleted(_) => true,
            _ => false,
        }
    }
}

/// Two outcomes share an exit code only when both are successes.
pub proof fn lemma_codes_distinct(a: Outcome, b: Outcome)
    requires
        a.code() == b.code(),
    ensures
        a.code() == 0 || (a is NotFound <==> b is NotFound),
        a.code() == 0 || (a is PermissionDenied <==> b is PermissionDenied),
        a.code() == 0 || (a is NonEmptyFile <==> b is NonEmptyFile),
        a.code() == 0 || (a is NonEmptyDirectory <==> b is NonEmptyDirectory),
        a.code() == 0 || (a is ResolvingSymlink <==> b is ResolvingSymlink),
        a.code() == 0 || (a is Declined ==> b == a),
        a.code() == 0 <==> (a is Empty || a is Deleted),
{
}

} // verus!
