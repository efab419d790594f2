//! The decisions taken while a path is inspected. The caller performs each
//! filesystem step and hands the result to the function for that step.
use crate::census::{DirectoryCensus, EntryKind};
use crate::outcome::{Outcome, TargetKind};
use vstd::prelude::*;

verus! {

/// What a stat call on the path, not following a final symbolic link, gave.
#[derive(Clone, Debug)]
pub enum MetadataResult {
    NotFound,
    PermissionDenied,
    /// Any other failure, with its message.
    OtherError(String),
    /// The entry's kind and its length in bytes.
    Success(EntryKind, u64),
}

/// What to do after the stat call.
#[derive(Clone, Copy, Debug, PartialEq, Eq, Structural)]
pub enum Plan {
    /// End the run with this outcome.
    Report(Outcome),
    /// End the run with a diagnostic: the failure is not one of the expected ones.
    Abort,
    /// List the directory's immediate entries and take their census.
    InspectDirectory,
    /// Judge a regular file of this many bytes.
    InspectFile(u64),
    /// Check whether the symbolic link's target exists.
    InspectSymlink,
}

/// What follows from a target's state.
#[derive(Clone, Copy, Debug, PartialEq, Eq, Structural)]
pub enum Verdict {
    /// The run ends with this outcome.
    Finish(Outcome),
    /// The target is empty and deletion was requested: ask for confirmation.
    Confirm(TargetKind),
}

/// What resolving the path to its canonical form gave.
#[derive(Clone, Debug)]
pub enum Resolution {
    /// The absolute path with every symbolic link resolved.
    Resolved(String),
    /// The path, or what it resolves to, does not exist.
    NotFound,
    /// Any other failure, with its message.
    Failed(String),
}

pub open spec fn plan_of(meta: MetadataResult) -> Plan {
    match meta {
        MetadataResult::NotFound => Plan::Report(Outcome::NotFound),
        MetadataResult::PermissionDenied => Plan::Report(Outcome::PermissionDenied),
        MetadataResult::OtherError(_) => Plan::Abort,
        MetadataResult::Success(EntryKind::Directory, _) => Plan::InspectDirectory,
        MetadataResult::Success(EntryKind::File, len) => Plan::InspectFile(len),
        MetadataResult::Success(EntryKind::Symlink, _) => Plan::InspectSymlink,
        MetadataResult::Success(EntryKind::Other, _) => Plan::Abort,
    }
}

/// Chooses the next step from the stat result: a missing path and a denied
/// access end the run with their outcomes, a directory, a file and a symbolic
/// link are inspected, and anything else aborts.
pub fn plan(meta: &MetadataResult) -> (r: Plan)
    ensures
        r == plan_of(*meta),
{
    match meta {
        MetadataResult::NotFound => Plan::Report(Outcome::NotFound),
        MetadataResult::PermissionDenied => Plan::Report(Outcome::PermissionDenied),
        MetadataResult::OtherError(_) => Plan::Abort,
        MetadataResult::Success(EntryKind::Directory, _) => Plan::InspectDirectory,
        MetadataResult::Success(EntryKind::File, len) => Plan::InspectFile(*len),
        MetadataResult::Success(EntryKind::Symlink, _) => Plan::InspectSymlink,
        MetadataResult::Success(EntryKind::Other, _) => Plan::Abort,
    }
}

/// What an empty target leads to: confirmation when deletion was requested,
/// else success with nothing deleted.
pub open spec fn empty_verdict(kind: TargetKind, delete_if_empty: bool) -> Verdict {
    if delete_if_empty {
        Verdict::Confirm(kind)
    } else {
        Verdict::Finish(Outcome::Empty(kind))
    }
}

pub open spec fn directory_verdict_of(c: DirectoryCensus, delete_if_empty: bool) -> Verdict {
    if c.total > 0 {
        Verdict::Finish(Outcome::NonEmptyDirectory(c))
    } else {
        empty_verdict(TargetKind::Directory, delete_if_empty)
    }
}

pub open spec fn file_verdict_of(len: u64, delete_if_empty: bool) -> Verdict {
    if len > 0 {
        Verdict::Finish(Outcome::NonEmptyFile(len))
    } else {
        empty_verdict(TargetKind::File, delete_if_empty)
    }
}

pub open spec fn symlink_verdict_of(target_exists: bool, delete_if_empty: bool) -> Verdict {
    if target_exists {
        Verdict::Finish(Outcome::ResolvingSymlink)
    } else {
        empty_verdict(TargetKind::Symlink, delete_if_empty)
    }
}

fn empty_target(kind: TargetKind, delete_if_empty: bool) -> (r: Verdict)
    ensures
        r == empty_verdict(kind, delete_if_empty),
{
    if delete_if_empty {
        Verdict::Confirm(kind)
    } else {
        Verdict::Finish(Outcome::Empty(kind))
    }
}

/// Judges a directory by its census: any entry makes it non-empty.
pub fn directory_verdict(c: DirectoryCensus, delete_if_empty: bool) -> (r: Verdict)
    requires
        c.wf(),
    ensures
        r == directory_verdict_of(c, delete_if_empty),
{
    if c.total > 0 {
        Verdict::Finish(Outcome::NonEmptyDirectory(c))
    } else {
        empty_target(TargetKind::Directory, delete_if_empty)
    }
}

/// Judges a regular file by its length in bytes.
pub fn file_verdict(len: u64, delete_if_empty: bool) -> (r: Verdict)
    ensures
        r == file_verdict_of(len, delete_if_empty),
{
    if len > 0 {
        Verdict::Finish(Outcome::NonEmptyFile(len))
    } else {
        empty_target(TargetKind::File, delete_if_empty)
    }
}

/// Judges a symbolic link by whether it resolves: one that does counts as
/// non-empty whatever its target holds, a dangling one counts as empty.
pub fn symlink_verdict(canonical: &Option<String>, delete_if_empty: bool) -> (r: Verdict)
    ensures
        r == symlink_verdict_of(canonical is Some, delete_if_empty),
{
    match canonical {
        Some(_) => Verdict::Finish(Outcome::ResolvingSymlink),
        None => empty_target(TargetKind::Symlink, delete_if_empty),
    }
}

pub open spec fn canonical_of(res: Resolution) -> Result<Option<Seq<char>>, Seq<char>> {
    match res {
        Resolution::Resolved(s) => Ok(Some(s@)),
        Resolution::NotFound => Ok(None),
        Resolution::Failed(m) => Err(m@),
    }
}

/// The canonical path when there is one, `None` when the path or its target
/// does not exist, and the message of any other failure as an error.
pub fn canonical_path(res: Resolution) -> (r: Result<Option<String>, String>)
    ensures
        canonical_of(res) == match r {
            Ok(Some(s)) => Ok(Some(s@)),
            Ok(None) => Ok(None),
            Err(m) => Err(m@),
        },
{
    match res {
        Resolution::Resolved(s) => Ok(Some(s)),
        Resolution::NotFound => Ok(None),
        Resolution::Failed(m) => Err(m),
    }
}

pub open spec fn display_of(raw: Seq<char>, canonical: Option<String>) -> Seq<char> {
    match canonical {
        Some(c) => c@,
        None => raw,
    }
}

/// The path to show: the canonical one where it could be resolved, else the
/// path as it was given.
pub fn display_path(raw: &str, canonical: &Option<String>) -> (r: String)
    ensures
        r@ == display_of(raw@, *canonical),
{
    match canonical {
        Some(c) => c.clone(),
        None => raw.to_owned(),
    }
}

/// The one line that confirms a deletion: `y` and a line feed.
pub open spec fn accepts(line: Seq<char>) -> bool {
    line == seq!['y', '\n']
}

/// Whether a line read from the terminal confirms the deletion. Only `y`
/// followed by a line feed does; `yes`, `Y` and an empty line decline.
pub fn is_confirmation(line: &str) -> (r: bool)
    ensures
        r == accepts(line@),
{
    if line.unicode_len() != 2 {
        return false;
    }
    let first = line.get_char(0);
    let second = line.get_char(1);
    let r = first == 'y' && second == '\n';
    assert(r ==> line@ =~= seq!['y', '\n']);
    r
}

pub open spec fn answer_of(kind: TargetKind, line: Seq<char>) -> Outcome {
    if accepts(line) {
        Outcome::Deleted(kind)
    } else {
        Outcome::Declined(kind)
    }
}

/// The outcome of the confirmation asked for an empty target.
pub fn answer(kind: TargetKind, line: &str) -> (r: Outcome)
    ensures
        r == answer_of(kind, line@),
{
    if is_confirmation(line) {
        Outcome::Deleted(kind)
    } else {
        Outcome::Declined(kind)
    }
}

} // verus!
