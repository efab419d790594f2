//! Decides whether a filesystem path is an empty directory, an empty file or a
//! symbolic link to a target that does not exist, and what to do about it.
//!
//! The filesystem itself is reached by the caller: this library takes what a
//! stat call, a directory listing, a canonicalization and a confirmation line
//! gave, and returns the outcome, the exit code and whether to delete.
mod census;
mod inspect;
mod laws;
mod outcome;
mod style;

pub use census::{
    census, census_of, count_kind, lemma_count_zero, lemma_counts_sum, DirectoryCensus,
    EntryKind,
};
pub use outcome::{lemma_codes_distinct, Outcome, TargetKind};
pub use style::{bold_if_greater_than_zero, decimal_of, digit_char, with_bold};
pub use inspect::{
    accepts, answer, answer_of, canonical_of, canonical_path, directory_verdict,
    directory_verdict_of, display_of, display_path, empty_verdict, file_verdict, file_verdict_of,
    is_confirmation, plan, plan_of, symlink_verdict, symlink_verdict_of, MetadataResult, Plan,
    Resolution, Verdict,
};
pub use laws::{
    law_dangling_symlink_is_empty, law_decline_deletes_nothing, law_empty_directory_is_empty,
    law_file_emptiness, law_missing_path_is_not_found, law_one_of_each,
    law_resolving_symlink_is_non_empty, law_unresolved_path_shows_raw,
};
