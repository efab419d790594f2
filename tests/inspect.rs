use empd::{
    answer, bold_if_greater_than_zero, canonical_path, census, directory_verdict, display_path,
    file_verdict, is_confirmation, plan, symlink_verdict, DirectoryCensus, EntryKind,
    MetadataResult, Outcome, Plan, Resolution, TargetKind, Verdict,
};

#[test]
fn missing_path_is_not_found_with_its_own_code() {
    let p = plan(&MetadataResult::NotFound);
    assert_eq!(p, Plan::Report(Outcome::NotFound));
    assert_eq!(Outcome::NotFound.exit_code(), 11);
}

#[test]
fn denied_path_is_reported() {
    let p = plan(&MetadataResult::PermissionDenied);
    assert_eq!(p, Plan::Report(Outcome::PermissionDenied));
    assert_eq!(Outcome::PermissionDenied.exit_code(), 12);
}

#[test]
fn other_stat_failure_aborts() {
    assert_eq!(plan(&MetadataResult::OtherError("I/O error".to_string())), Plan::Abort);
}

#[test]
fn unsupported_kind_aborts() {
    assert_eq!(plan(&MetadataResult::Success(EntryKind::Other, 0)), Plan::Abort);
}

#[test]
fn plan_per_kind() {
    assert_eq!(plan(&MetadataResult::Success(EntryKind::Directory, 4096)), Plan::InspectDirectory);
    assert_eq!(plan(&MetadataResult::Success(EntryKind::File, 17)), Plan::InspectFile(17));
    assert_eq!(plan(&MetadataResult::Success(EntryKind::Symlink, 9)), Plan::InspectSymlink);
}

#[test]
fn empty_directory_is_empty() {
    let c = census(&Vec::new()).unwrap();
    assert_eq!(c, DirectoryCensus { directories: 0, files: 0, symlinks: 0, total: 0 });
    let v = directory_verdict(c, false);
    assert_eq!(v, Verdict::Finish(Outcome::Empty(TargetKind::Directory)));
    assert_eq!(Outcome::Empty(TargetKind::Directory).exit_code(), 0);
    assert_eq!(directory_verdict(c, true), Verdict::Confirm(TargetKind::Directory));
}

#[test]
fn one_of_each_kind() {
    let c = census(&vec![EntryKind::File, EntryKind::Directory, EntryKind::Symlink]).unwrap();
    assert_eq!(c, DirectoryCensus { directories: 1, files: 1, symlinks: 1, total: 3 });
    let v = directory_verdict(c, true);
    assert_eq!(v, Verdict::Finish(Outcome::NonEmptyDirectory(c)));
    assert_eq!(Outcome::NonEmptyDirectory(c).exit_code(), 31);
}

#[test]
fn census_counts_many() {
    let kinds = vec![
        EntryKind::File,
        EntryKind::File,
        EntryKind::Symlink,
        EntryKind::File,
        EntryKind::Directory,
    ];
    let c = census(&kinds).unwrap();
    assert_eq!(c, DirectoryCensus { directories: 1, files: 3, symlinks: 1, total: 5 });
}

#[test]
fn census_refuses_other_entry() {
    assert_eq!(census(&vec![EntryKind::File, EntryKind::Other, EntryKind::Directory]), None);
    assert_eq!(census(&vec![EntryKind::Other]), None);
}

#[test]
fn zero_length_file_is_empty() {
    assert_eq!(file_verdict(0, false), Verdict::Finish(Outcome::Empty(TargetKind::File)));
    assert_eq!(Outcome::Empty(TargetKind::File).exit_code(), 0);
    assert_eq!(file_verdict(0, true), Verdict::Confirm(TargetKind::File));
}

#[test]
fn non_empty_file_reports_its_size() {
    assert_eq!(file_verdict(1234, false), Verdict::Finish(Outcome::NonEmptyFile(1234)));
    assert_eq!(file_verdict(1, true), Verdict::Finish(Outcome::NonEmptyFile(1)));
    assert_eq!(
        file_verdict(u64::MAX, true),
        Verdict::Finish(Outcome::NonEmptyFile(u64::MAX))
    );
    assert_eq!(Outcome::NonEmptyFile(1234).exit_code(), 21);
}

#[test]
fn resolving_symlink_is_non_empty() {
    let target = Some("/tmp/empty_dir".to_string());
    assert_eq!(symlink_verdict(&target, false), Verdict::Finish(Outcome::ResolvingSymlink));
    assert_eq!(symlink_verdict(&target, true), Verdict::Finish(Outcome::ResolvingSymlink));
    assert_eq!(Outcome::ResolvingSymlink.exit_code(), 41);
}

#[test]
fn dangling_symlink_is_empty_and_deleted_on_y() {
    assert_eq!(symlink_verdict(&None, false), Verdict::Finish(Outcome::Empty(TargetKind::Symlink)));
    assert_eq!(symlink_verdict(&None, true), Verdict::Confirm(TargetKind::Symlink));
    let o = answer(TargetKind::Symlink, "y\n");
    assert_eq!(o, Outcome::Deleted(TargetKind::Symlink));
    assert!(o.deletes());
    assert_eq!(o.exit_code(), 0);
}

#[test]
fn confirmation_on_directory_and_file() {
    let d = answer(TargetKind::Directory, "y\n");
    assert_eq!(d, Outcome::Deleted(TargetKind::Directory));
    assert!(d.deletes());
    let f = answer(TargetKind::File, "y\n");
    assert_eq!(f, Outcome::Deleted(TargetKind::File));
    assert!(f.deletes());
}

#[test]
fn declining_deletes_nothing() {
    for line in ["n\n", "yes\n", "Y\n", "\n", "", "y", " y\n", "y\r\n"] {
        let d = answer(TargetKind::Directory, line);
        assert_eq!(d, Outcome::Declined(TargetKind::Directory));
        assert!(!d.deletes());
        assert_eq!(d.exit_code(), 32);
        let f = answer(TargetKind::File, line);
        assert_eq!(f, Outcome::Declined(TargetKind::File));
        assert!(!f.deletes());
        assert_eq!(f.exit_code(), 22);
        let s = answer(TargetKind::Symlink, line);
        assert_eq!(s, Outcome::Declined(TargetKind::Symlink));
        assert!(!s.deletes());
        assert_eq!(s.exit_code(), 42);
    }
}

#[test]
fn only_exact_y_confirms() {
    assert!(is_confirmation("y\n"));
    assert!(!is_confirmation("yy\n"));
    assert!(!is_confirmation("y"));
    assert!(!is_confirmation("n\n"));
}

#[test]
fn unresolved_path_falls_back_to_raw() {
    let c = canonical_path(Resolution::NotFound).unwrap();
    assert_eq!(c, None);
    assert_eq!(display_path("dangling", &c), "dangling");
}

#[test]
fn resolved_path_is_shown_canonical() {
    let c = canonical_path(Resolution::Resolved("/home/u/dir".to_string())).unwrap();
    assert_eq!(c, Some("/home/u/dir".to_string()));
    assert_eq!(display_path("./dir", &c), "/home/u/dir");
}

#[test]
fn other_canonicalization_failure_is_an_error() {
    let r = canonical_path(Resolution::Failed("permission denied".to_string()));
    assert_eq!(r, Err("permission denied".to_string()));
}

#[test]
fn exit_codes_are_distinct() {
    let outcomes = [
        Outcome::NotFound,
        Outcome::PermissionDenied,
        Outcome::NonEmptyFile(3),
        Outcome::Declined(TargetKind::File),
        Outcome::NonEmptyDirectory(DirectoryCensus { directories: 1, files: 0, symlinks: 0, total: 1 }),
        Outcome::Declined(TargetKind::Directory),
        Outcome::ResolvingSymlink,
        Outcome::Declined(TargetKind::Symlink),
    ];
    for (i, a) in outcomes.iter().enumerate() {
        assert_ne!(a.exit_code(), 0);
        for b in outcomes.iter().skip(i + 1) {
            assert_ne!(a.exit_code(), b.exit_code());
        }
    }
}

#[test]
fn positive_count_is_bold() {
    assert_eq!(bold_if_greater_than_zero(3), "\u{1b}[1m3\u{1b}[0m");
    assert_eq!(bold_if_greater_than_zero(120), "\u{1b}[1m120\u{1b}[0m");
}

#[test]
fn zero_count_is_plain() {
    assert_eq!(bold_if_greater_than_zero(0), "0");
}
