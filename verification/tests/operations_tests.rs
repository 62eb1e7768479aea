use dirsync::file_operations::handle_remove_err;
use dirsync::file_operations::is_in_excluded_paths;
use dirsync::file_operations::Action;
use dirsync::file_operations::Admission;
use dirsync::file_operations::EntryKind;
use dirsync::file_operations::FileOperationsManager;
use dirsync::file_operations::Observation;
use dirsync::file_operations::Outcome;
use dirsync::file_operations::PendingRename;
use dirsync::file_operations::Plan;
use dirsync::file_operations::RenameRole;
use dirsync::file_operations::Report;
use dirsync::file_operations::Target;
use dirsync::file_store::FileStore;
use dirsync::path::Component;
use dirsync::path::SyncPath;
use dirsync::utils::Args;
use dirsync::utils::IoStatus;
use dirsync::utils::LogRecord;
use dirsync::utils::PathMetadata;
use dirsync::utils::PathType;
use dirsync::utils::Timing;
use dirsync::utils::Utils;
use dirsync::utils::Verb;

fn p(text: &str) -> SyncPath {
    let mut components = Vec::new();
    if text.starts_with('/') {
        components.push(Component::RootDir);
    }
    for name in text.split('/').filter(|s| !s.is_empty()) {
        components.push(Component::Normal(name.to_string()));
    }
    SyncPath { components }
}

fn utils(excluded: &[&str], no_tmp: bool) -> Utils {
    let mut utils = Utils::new(Args {
        source_dir: p("/src"),
        target_dir: p("/dst"),
        exclude: Vec::new(),
        exclude_temporary_editor_files: no_tmp,
        no_creation_events: false,
        ide_mode: false,
        statistics: false,
        trace: false,
    });
    utils.set_excluded_paths(excluded.iter().map(|text| p(text)).collect());
    utils
}

fn target(relative: &str) -> Target {
    match FileOperationsManager::locate(&utils(&[], false), &p("/src").join(&p(relative))) {
        Admission::Admitted(target) => target,
        other => panic!("not admitted: {:?}", other),
    }
}

fn seen(source: EntryKind, destination: EntryKind, parent_exists: bool) -> Observation {
    Observation { source, destination, parent_exists }
}

fn digest(bytes: &[u8]) -> [u8; 32] {
    *blake3::hash(bytes).as_bytes()
}

const NOTHING: Plan =
    Plan { ensure_parent: false, action: Action::Nothing, kind: None, fingerprint: None, note: None };

const DONE: Outcome = Outcome { parent: IoStatus::Done, action: IoStatus::Done };

fn acted(verb: Verb, kind: PathType) -> Option<LogRecord> {
    Some(LogRecord::Action { verb, kind, timing: Timing::Untimed })
}

#[test]
fn excluded_paths_cover_what_lies_below() {
    let utils = utils(&["/src/.git", "/src/out"], false);
    assert!(is_in_excluded_paths(&utils, &p("/src/.git")));
    assert!(is_in_excluded_paths(&utils, &p("/src/.git/objects/ab/cd")));
    assert!(is_in_excluded_paths(&utils, &p("/src/out/x")));
    assert!(!is_in_excluded_paths(&utils, &p("/src/.gitignore")));
    assert!(!is_in_excluded_paths(&utils, &p("/src")));
    assert!(!is_in_excluded_paths(&utils, &p("/src/a/.git")));
}

#[test]
fn nothing_is_excluded_without_excluded_paths() {
    let utils = utils(&[], false);
    assert!(!is_in_excluded_paths(&utils, &p("/src/.git/config")));
    assert!(!is_in_excluded_paths(&utils, &p("")));
}

#[test]
fn locate_places_an_admitted_path() {
    let utils = utils(&["/src/.git"], true);
    match FileOperationsManager::locate(&utils, &p("/src/dir/a.txt")) {
        Admission::Admitted(target) => {
            assert_eq!(target.key, p("/src/dir/a.txt"));
            assert_eq!(target.relative, p("dir/a.txt"));
            assert_eq!(target.destination, p("/dst/dir/a.txt"));
            assert_eq!(target.parent, Some(p("/dst/dir")));
            assert_eq!(target.parent_key, Some(p("/src/dir")));
        }
        other => panic!("not admitted: {:?}", other),
    }
}

#[test]
fn locate_places_the_watched_root_itself() {
    match FileOperationsManager::locate(&utils(&[], false), &p("/src")) {
        Admission::Admitted(target) => {
            assert_eq!(target.key, p("/src"));
            assert_eq!(target.relative, p(""));
            assert_eq!(target.destination, p("/dst"));
            assert_eq!(target.parent, Some(p("/")));
            assert_eq!(target.parent_key, Some(p("/")));
        }
        other => panic!("not admitted: {:?}", other),
    }
}

#[test]
fn locate_drops_what_is_excluded() {
    let utils = utils(&["/src/.git"], false);
    assert!(matches!(
        FileOperationsManager::locate(&utils, &p("/src/.git/sub/file.txt")),
        Admission::Excluded
    ));
    assert!(matches!(FileOperationsManager::locate(&utils, &p("/src/.git")), Admission::Excluded));
}

#[test]
fn exclusion_comes_before_the_watched_root() {
    let utils = utils(&["/elsewhere"], false);
    assert!(matches!(
        FileOperationsManager::locate(&utils, &p("/elsewhere/x")),
        Admission::Excluded
    ));
    assert!(matches!(FileOperationsManager::locate(&utils, &p("/other/x")), Admission::Outside));
}

#[test]
fn locate_tells_paths_outside_the_watched_root() {
    let utils = utils(&[], true);
    assert!(matches!(FileOperationsManager::locate(&utils, &p("/other/a~")), Admission::Outside));
    assert!(matches!(FileOperationsManager::locate(&utils, &p("/srcx/a")), Admission::Outside));
    assert!(matches!(FileOperationsManager::locate(&utils, &p("")), Admission::Outside));
}

#[test]
fn locate_drops_temporary_files_when_asked() {
    assert!(matches!(
        FileOperationsManager::locate(&utils(&[], true), &p("/src/dir/a.txt~")),
        Admission::Temporary
    ));
    assert!(matches!(
        FileOperationsManager::locate(&utils(&[], false), &p("/src/dir/a.txt~")),
        Admission::Admitted(_)
    ));
    assert!(matches!(
        FileOperationsManager::locate(&utils(&[], true), &p("/src/dir~/a.txt")),
        Admission::Admitted(_)
    ));
}

#[test]
fn remove_errors_that_say_not_found_are_muted() {
    assert_eq!(handle_remove_err(Some(2), PathType::File), None);
    assert_eq!(handle_remove_err(Some(3), PathType::Dir), None);
}

#[test]
fn other_remove_errors_are_reported() {
    assert_eq!(
        handle_remove_err(Some(5), PathType::File),
        Some(LogRecord::RemoveFailed { kind: PathType::File })
    );
    assert_eq!(
        handle_remove_err(Some(-2), PathType::Dir),
        Some(LogRecord::RemoveFailed { kind: PathType::Dir })
    );
    assert_eq!(
        handle_remove_err(None, PathType::Dir),
        Some(LogRecord::RemoveFailed { kind: PathType::Dir })
    );
}

#[test]
fn copy_of_an_unknown_file_copies_with_its_fingerprint() {
    let mut store = FileStore::new();
    let plan = FileOperationsManager::copy(
        &mut store,
        &target("a.txt"),
        &seen(EntryKind::File, EntryKind::Absent, true),
        &Some(b"x".to_vec()),
        1,
    );
    assert_eq!(
        plan,
        Plan {
            ensure_parent: false,
            action: Action::CopyFile,
            kind: Some(PathType::File),
            fingerprint: Some(digest(b"x")),
            note: None,
        }
    );
    assert_eq!(store.len(), 0);
}

#[test]
fn copy_fingerprints_the_bytes_that_were_read() {
    let mut store = FileStore::new();
    let x = FileOperationsManager::copy(
        &mut store,
        &target("a.txt"),
        &seen(EntryKind::File, EntryKind::File, true),
        &Some(b"x".to_vec()),
        1,
    );
    let y = FileOperationsManager::copy(
        &mut store,
        &target("a.txt"),
        &seen(EntryKind::File, EntryKind::File, true),
        &Some(b"y".to_vec()),
        1,
    );
    let empty = FileOperationsManager::copy(
        &mut store,
        &target("a.txt"),
        &seen(EntryKind::File, EntryKind::File, true),
        &Some(Vec::new()),
        1,
    );
    assert_eq!(x.fingerprint, Some(digest(b"x")));
    assert_eq!(y.fingerprint, Some(digest(b"y")));
    assert_eq!(empty.fingerprint, Some(digest(b"")));
    assert_ne!(x.fingerprint, y.fingerprint);
    assert_ne!(x.fingerprint, Some([b'x'; 32]));
}

#[test]
fn copy_asks_for_missing_directories() {
    let mut store = FileStore::new();
    let plan = FileOperationsManager::copy_fingerprinted(
        &mut store,
        &target("dir/a.txt"),
        &seen(EntryKind::File, EntryKind::Absent, false),
        Some([1; 32]),
        1,
    );
    assert!(plan.ensure_parent);
    assert_eq!(plan.action, Action::CopyFile);
}

#[test]
fn copy_of_an_unknown_file_that_could_not_be_read_copies_all_the_same() {
    let mut store = FileStore::new();
    let plan = FileOperationsManager::copy(
        &mut store,
        &target("a.txt"),
        &seen(EntryKind::File, EntryKind::Absent, true),
        &None,
        1,
    );
    assert_eq!(plan.action, Action::CopyFile);
    assert_eq!(plan.fingerprint, None);
}

#[test]
fn copy_of_an_unknown_directory_makes_it() {
    let mut store = FileStore::new();
    let plan = FileOperationsManager::copy_fingerprinted(
        &mut store,
        &target("dir"),
        &seen(EntryKind::Dir, EntryKind::Absent, false),
        None,
        1,
    );
    assert_eq!(
        plan,
        Plan {
            ensure_parent: false,
            action: Action::CreateDir,
            kind: Some(PathType::Dir),
            fingerprint: None,
            note: None,
        }
    );
    let present = FileOperationsManager::copy_fingerprinted(
        &mut store,
        &target("dir"),
        &seen(EntryKind::Dir, EntryKind::Dir, true),
        None,
        1,
    );
    assert_eq!(present, NOTHING);
}

#[test]
fn copy_of_an_unknown_path_that_is_gone_does_nothing() {
    let mut store = FileStore::new();
    for source in [EntryKind::Absent, EntryKind::Other] {
        let plan = FileOperationsManager::copy_fingerprinted(
            &mut store,
            &target("a.txt"),
            &seen(source, EntryKind::File, true),
            None,
            1,
        );
        assert_eq!(plan, NOTHING);
    }
}

#[test]
fn copy_of_a_known_directory_only_makes_sure_it_exists() {
    let mut store = FileStore::new();
    store.create(p("/src/dir"), PathMetadata::new(PathType::Dir, None, 0));
    let missing = FileOperationsManager::copy_fingerprinted(
        &mut store,
        &target("dir"),
        &seen(EntryKind::File, EntryKind::File, true),
        Some([1; 32]),
        1,
    );
    assert_eq!(missing.action, Action::CreateDir);
    assert_eq!(missing.kind, Some(PathType::Dir));
    assert_eq!(missing.fingerprint, None);
    let present = FileOperationsManager::copy_fingerprinted(
        &mut store,
        &target("dir"),
        &seen(EntryKind::Dir, EntryKind::Dir, true),
        None,
        1,
    );
    assert_eq!(present, NOTHING);
    assert_eq!(store.peek(&p("/src/dir")), Some(PathMetadata::new(PathType::Dir, None, 0)));
}

#[test]
fn copy_of_identical_content_is_skipped_and_confirmed() {
    let mut store = FileStore::new();
    store.create(p("/src/a.txt"), PathMetadata::new(PathType::File, Some([1; 32]), 0));
    let plan = FileOperationsManager::copy_fingerprinted(
        &mut store,
        &target("a.txt"),
        &seen(EntryKind::File, EntryKind::File, false),
        Some([1; 32]),
        77,
    );
    assert_eq!(
        plan,
        Plan {
            ensure_parent: false,
            action: Action::Nothing,
            kind: None,
            fingerprint: None,
            note: Some(LogRecord::Identical),
        }
    );
    assert_eq!(
        store.peek(&p("/src/a.txt")),
        Some(PathMetadata::new(PathType::File, Some([1; 32]), 77))
    );
}

#[test]
fn copy_of_changed_content_copies() {
    let mut store = FileStore::new();
    store.create(p("/src/a.txt"), PathMetadata::new(PathType::File, Some([1; 32]), 0));
    let plan = FileOperationsManager::copy_fingerprinted(
        &mut store,
        &target("a.txt"),
        &seen(EntryKind::File, EntryKind::File, true),
        Some([2; 32]),
        77,
    );
    assert_eq!(plan.action, Action::CopyFile);
    assert_eq!(plan.fingerprint, Some([2; 32]));
    assert_eq!(plan.note, None);
    assert_eq!(
        store.peek(&p("/src/a.txt")),
        Some(PathMetadata::new(PathType::File, Some([1; 32]), 0))
    );
}

#[test]
fn copy_of_a_known_file_that_could_not_be_read_copies_all_the_same() {
    let mut store = FileStore::new();
    store.create(p("/src/a.txt"), PathMetadata::new(PathType::File, None, 0));
    let plan = FileOperationsManager::copy_fingerprinted(
        &mut store,
        &target("a.txt"),
        &seen(EntryKind::Absent, EntryKind::File, true),
        None,
        77,
    );
    assert_eq!(plan.action, Action::CopyFile);
    assert_eq!(plan.fingerprint, None);
}

#[test]
fn copy_counts_as_a_use_of_the_entry() {
    let mut store = FileStore::with_capacity(2).unwrap();
    store.create(p("/src/a.txt"), PathMetadata::new(PathType::File, Some([1; 32]), 0));
    store.create(p("/src/b.txt"), PathMetadata::new(PathType::File, Some([2; 32]), 0));
    FileOperationsManager::copy_fingerprinted(
        &mut store,
        &target("a.txt"),
        &seen(EntryKind::File, EntryKind::File, true),
        Some([3; 32]),
        1,
    );
    store.create(p("/src/c.txt"), PathMetadata::new(PathType::File, None, 0));
    assert!(store.peek(&p("/src/a.txt")).is_some());
    assert!(store.peek(&p("/src/b.txt")).is_none());
}

#[test]
fn create_of_a_known_path_does_nothing() {
    let mut store = FileStore::new();
    store.create(p("/src/a.txt"), PathMetadata::new(PathType::File, None, 0));
    let plan = FileOperationsManager::create(
        &mut store,
        &target("a.txt"),
        &seen(EntryKind::File, EntryKind::Absent, true),
    );
    assert_eq!(plan, NOTHING);
}

#[test]
fn create_of_a_file_makes_an_empty_file() {
    let mut store = FileStore::new();
    let plan = FileOperationsManager::create(
        &mut store,
        &target("dir/a.txt"),
        &seen(EntryKind::File, EntryKind::Absent, false),
    );
    assert_eq!(
        plan,
        Plan {
            ensure_parent: true,
            action: Action::CreateFile,
            kind: Some(PathType::File),
            fingerprint: None,
            note: None,
        }
    );
}

#[test]
fn create_of_a_directory_makes_it() {
    let mut store = FileStore::new();
    let plan = FileOperationsManager::create(
        &mut store,
        &target("dir"),
        &seen(EntryKind::Dir, EntryKind::Absent, true),
    );
    assert_eq!(
        plan,
        Plan {
            ensure_parent: false,
            action: Action::CreateDir,
            kind: Some(PathType::Dir),
            fingerprint: None,
            note: None,
        }
    );
}

#[test]
fn create_leaves_an_existing_destination_alone() {
    let mut store = FileStore::new();
    for destination in [EntryKind::File, EntryKind::Dir, EntryKind::Other] {
        for source in [EntryKind::File, EntryKind::Dir] {
            let plan = FileOperationsManager::create(
                &mut store,
                &target("a"),
                &seen(source, destination, true),
            );
            assert_eq!(plan, NOTHING);
        }
    }
    for source in [EntryKind::Absent, EntryKind::Other] {
        let plan = FileOperationsManager::create(
            &mut store,
            &target("a"),
            &seen(source, EntryKind::Absent, true),
        );
        assert_eq!(plan, NOTHING);
    }
}

#[test]
fn remove_forgets_the_path_and_removes_what_is_there() {
    let mut store = FileStore::new();
    store.create(p("/src/a.txt"), PathMetadata::new(PathType::File, None, 0));
    store.create(p("/src/dir"), PathMetadata::new(PathType::Dir, None, 0));
    let file = FileOperationsManager::remove(
        &mut store,
        &target("a.txt"),
        &seen(EntryKind::Absent, EntryKind::File, true),
    );
    assert_eq!(file.action, Action::RemoveFile);
    assert_eq!(file.kind, Some(PathType::File));
    assert_eq!(store.peek(&p("/src/a.txt")), None);
    let dir = FileOperationsManager::remove(
        &mut store,
        &target("dir"),
        &seen(EntryKind::Absent, EntryKind::Dir, true),
    );
    assert_eq!(dir.action, Action::RemoveDir);
    assert_eq!(dir.kind, Some(PathType::Dir));
    assert_eq!(store.len(), 0);
}

#[test]
fn remove_of_what_is_not_there_is_silent() {
    let mut store = FileStore::new();
    store.create(p("/src/b.txt"), PathMetadata::new(PathType::File, None, 0));
    let plan = FileOperationsManager::remove(
        &mut store,
        &target("a.txt"),
        &seen(EntryKind::Absent, EntryKind::Absent, true),
    );
    assert_eq!(plan, NOTHING);
    assert_eq!(store.len(), 1);
    let report = FileOperationsManager::complete(
        &mut store,
        &utils(&[], false),
        &target("a.txt"),
        &plan,
        &None,
        &DONE,
        5,
        5,
    );
    assert_eq!(report, Report { parent: None, action: None });
    assert_eq!(store.len(), 1);
}

#[test]
fn remove_of_something_else_is_reported() {
    let mut store = FileStore::new();
    store.create(p("/src/a.txt"), PathMetadata::new(PathType::File, None, 0));
    let plan = FileOperationsManager::remove(
        &mut store,
        &target("a.txt"),
        &seen(EntryKind::Absent, EntryKind::Other, true),
    );
    assert_eq!(plan.action, Action::Nothing);
    assert_eq!(plan.note, Some(LogRecord::RemoveUnsupported));
    assert_eq!(store.len(), 0);
}

#[test]
fn rename_from_is_only_remembered() {
    let mut pending = None;
    let (plan, taken) = FileOperationsManager::rename(
        &target("a.txt"),
        RenameRole::From,
        &seen(EntryKind::Absent, EntryKind::File, true),
        &mut pending,
    );
    assert_eq!(plan, NOTHING);
    assert!(taken.is_none());
    let pending = pending.unwrap();
    assert_eq!(pending.key, p("/src/a.txt"));
    assert_eq!(pending.destination, p("/dst/a.txt"));
}

#[test]
fn a_second_rename_from_replaces_the_first() {
    let mut pending = None;
    for name in ["a.txt", "b.txt"] {
        FileOperationsManager::rename(
            &target(name),
            RenameRole::From,
            &seen(EntryKind::Absent, EntryKind::File, true),
            &mut pending,
        );
    }
    assert_eq!(pending.unwrap().key, p("/src/b.txt"));
}

#[test]
fn rename_to_takes_what_is_pending() {
    let mut pending =
        Some(PendingRename { key: p("/src/a.txt"), destination: p("/dst/a.txt") });
    let (plan, taken) = FileOperationsManager::rename(
        &target("b.txt"),
        RenameRole::To,
        &seen(EntryKind::File, EntryKind::Absent, true),
        &mut pending,
    );
    assert_eq!(
        plan,
        Plan {
            ensure_parent: false,
            action: Action::Rename,
            kind: Some(PathType::File),
            fingerprint: None,
            note: None,
        }
    );
    assert!(pending.is_none());
    let taken = taken.unwrap();
    assert_eq!(taken.key, p("/src/a.txt"));
    assert_eq!(taken.destination, p("/dst/a.txt"));
}

#[test]
fn rename_to_says_what_the_path_is() {
    for (source, kind) in [
        (EntryKind::Dir, Some(PathType::Dir)),
        (EntryKind::Absent, None),
        (EntryKind::Other, None),
    ] {
        let mut pending =
            Some(PendingRename { key: p("/src/a"), destination: p("/dst/a") });
        let (plan, _) = FileOperationsManager::rename(
            &target("b"),
            RenameRole::To,
            &seen(source, EntryKind::Absent, true),
            &mut pending,
        );
        assert_eq!(plan.action, Action::Rename);
        assert_eq!(plan.kind, kind);
    }
}

#[test]
fn rename_to_with_nothing_pending_only_says_so() {
    let mut pending = None;
    let (plan, taken) = FileOperationsManager::rename(
        &target("b.txt"),
        RenameRole::To,
        &seen(EntryKind::File, EntryKind::Absent, true),
        &mut pending,
    );
    assert_eq!(
        plan,
        Plan {
            ensure_parent: false,
            action: Action::Nothing,
            kind: None,
            fingerprint: None,
            note: Some(LogRecord::RenameUnpaired),
        }
    );
    assert!(taken.is_none());
    assert!(pending.is_none());
}

#[test]
fn write_in_file_store_writes_type_fingerprint_and_time() {
    let mut store = FileStore::new();
    FileOperationsManager::write_in_file_store(
        &mut store,
        p("/src/a.txt"),
        PathType::File,
        Some([5; 32]),
        9,
    );
    assert_eq!(
        store.peek(&p("/src/a.txt")),
        Some(PathMetadata { path_type: PathType::File, hash: Some([5; 32]), last_change: 9 })
    );
    FileOperationsManager::write_in_file_store(&mut store, p("/src/a.txt"), PathType::File, None, 10);
    assert_eq!(
        store.peek(&p("/src/a.txt")),
        Some(PathMetadata { path_type: PathType::File, hash: None, last_change: 10 })
    );
    FileOperationsManager::write_in_file_store(
        &mut store,
        p("/src/a.txt"),
        PathType::Dir,
        Some([5; 32]),
        11,
    );
    assert_eq!(
        store.peek(&p("/src/a.txt")),
        Some(PathMetadata { path_type: PathType::Dir, hash: None, last_change: 11 })
    );
    assert_eq!(store.len(), 1);
}

#[test]
fn create_depends_dirs_records_the_directory_on_success() {
    let mut store = FileStore::new();
    let line = FileOperationsManager::create_depends_dirs(
        &mut store,
        &utils(&[], false),
        &target("dir/a.txt"),
        IoStatus::Done,
        3,
        100,
    );
    assert_eq!(line, None);
    assert_eq!(store.peek(&p("/src/dir")), Some(PathMetadata::new(PathType::Dir, None, 3)));
    assert_eq!(store.len(), 1);
}

#[test]
fn create_depends_dirs_reports_a_failure() {
    let mut store = FileStore::new();
    let line = FileOperationsManager::create_depends_dirs(
        &mut store,
        &utils(&[], false),
        &target("dir/a.txt"),
        IoStatus::Failed { code: Some(13) },
        3,
        100,
    );
    assert_eq!(line, Some(LogRecord::CreateDirsFailed));
    assert_eq!(store.len(), 0);
}

#[test]
fn complete_of_a_copy_records_the_fingerprint() {
    let mut store = FileStore::new();
    let plan = Plan {
        ensure_parent: true,
        action: Action::CopyFile,
        kind: Some(PathType::File),
        fingerprint: Some([4; 32]),
        note: None,
    };
    let report = FileOperationsManager::complete(
        &mut store,
        &utils(&[], false),
        &target("dir/a.txt"),
        &plan,
        &None,
        &DONE,
        8,
        100,
    );
    assert_eq!(report, Report { parent: None, action: acted(Verb::Copied, PathType::File) });
    assert_eq!(
        store.peek(&p("/src/dir/a.txt")),
        Some(PathMetadata::new(PathType::File, Some([4; 32]), 8))
    );
    assert_eq!(store.peek(&p("/src/dir")), Some(PathMetadata::new(PathType::Dir, None, 8)));
    assert_eq!(store.len(), 2);
}

#[test]
fn complete_of_a_failed_copy_records_nothing() {
    let mut store = FileStore::new();
    let plan = Plan {
        ensure_parent: true,
        action: Action::CopyFile,
        kind: Some(PathType::File),
        fingerprint: Some([4; 32]),
        note: None,
    };
    let failed = Outcome {
        parent: IoStatus::Failed { code: Some(13) },
        action: IoStatus::Failed { code: Some(2) },
    };
    let report = FileOperationsManager::complete(
        &mut store,
        &utils(&[], false),
        &target("dir/a.txt"),
        &plan,
        &None,
        &failed,
        8,
        100,
    );
    assert_eq!(
        report,
        Report { parent: Some(LogRecord::CreateDirsFailed), action: Some(LogRecord::CopyFailed) }
    );
    assert_eq!(store.len(), 0);
}

#[test]
fn complete_ignores_the_directories_that_were_not_asked_for() {
    let mut store = FileStore::new();
    let plan = Plan {
        ensure_parent: false,
        action: Action::CopyFile,
        kind: Some(PathType::File),
        fingerprint: None,
        note: None,
    };
    let outcome = Outcome { parent: IoStatus::Failed { code: None }, action: IoStatus::Done };
    let report = FileOperationsManager::complete(
        &mut store,
        &utils(&[], false),
        &target("dir/a.txt"),
        &plan,
        &None,
        &outcome,
        8,
        100,
    );
    assert_eq!(report.parent, None);
    assert_eq!(store.len(), 1);
    assert_eq!(
        store.peek(&p("/src/dir/a.txt")),
        Some(PathMetadata::new(PathType::File, None, 8))
    );
}

#[test]
fn complete_of_a_creation() {
    let mut store = FileStore::new();
    let file = Plan {
        ensure_parent: false,
        action: Action::CreateFile,
        kind: Some(PathType::File),
        fingerprint: None,
        note: None,
    };
    let report = FileOperationsManager::complete(
        &mut store,
        &utils(&[], false),
        &target("a.txt"),
        &file,
        &None,
        &DONE,
        1,
        1,
    );
    assert_eq!(report.action, acted(Verb::Created, PathType::File));
    assert_eq!(store.peek(&p("/src/a.txt")), Some(PathMetadata::new(PathType::File, None, 1)));
    let dir = Plan {
        ensure_parent: false,
        action: Action::CreateDir,
        kind: Some(PathType::Dir),
        fingerprint: None,
        note: None,
    };
    let report = FileOperationsManager::complete(
        &mut store,
        &utils(&[], false),
        &target("dir"),
        &dir,
        &None,
        &DONE,
        2,
        1,
    );
    assert_eq!(report.action, acted(Verb::Created, PathType::Dir));
    assert_eq!(store.peek(&p("/src/dir")), Some(PathMetadata::new(PathType::Dir, None, 2)));
}

#[test]
fn complete_of_a_failed_creation() {
    let mut store = FileStore::new();
    let failed = Outcome { parent: IoStatus::Done, action: IoStatus::Failed { code: Some(13) } };
    let file = Plan {
        ensure_parent: false,
        action: Action::CreateFile,
        kind: Some(PathType::File),
        fingerprint: None,
        note: None,
    };
    let report = FileOperationsManager::complete(
        &mut store,
        &utils(&[], false),
        &target("a.txt"),
        &file,
        &None,
        &failed,
        1,
        1,
    );
    assert_eq!(report.action, Some(LogRecord::CreateFailed));
    let dir = Plan { action: Action::CreateDir, kind: Some(PathType::Dir), ..file };
    let report = FileOperationsManager::complete(
        &mut store,
        &utils(&[], false),
        &target("dir"),
        &dir,
        &None,
        &failed,
        1,
        1,
    );
    assert_eq!(report.action, Some(LogRecord::CopyFailed));
    assert_eq!(store.len(), 0);
}

#[test]
fn complete_of_a_removal() {
    let mut store = FileStore::new();
    let plan = Plan {
        ensure_parent: false,
        action: Action::RemoveFile,
        kind: Some(PathType::File),
        fingerprint: None,
        note: None,
    };
    let utils = utils(&[], false);
    let done =
        FileOperationsManager::complete(&mut store, &utils, &target("a"), &plan, &None, &DONE, 1, 1);
    assert_eq!(done.action, acted(Verb::Deleted, PathType::File));
    for (code, line) in [
        (Some(2), None),
        (Some(3), None),
        (Some(5), Some(LogRecord::RemoveFailed { kind: PathType::File })),
        (None, Some(LogRecord::RemoveFailed { kind: PathType::File })),
    ] {
        let outcome = Outcome { parent: IoStatus::Done, action: IoStatus::Failed { code } };
        let report = FileOperationsManager::complete(
            &mut store,
            &utils,
            &target("a"),
            &plan,
            &None,
            &outcome,
            1,
            1,
        );
        assert_eq!(report.action, line);
    }
    let dir = Plan { action: Action::RemoveDir, kind: Some(PathType::Dir), ..plan };
    let done =
        FileOperationsManager::complete(&mut store, &utils, &target("a"), &dir, &None, &DONE, 1, 1);
    assert_eq!(done.action, acted(Verb::Deleted, PathType::Dir));
    let outcome = Outcome { parent: IoStatus::Done, action: IoStatus::Failed { code: Some(39) } };
    let report = FileOperationsManager::complete(
        &mut store,
        &utils,
        &target("a"),
        &dir,
        &None,
        &outcome,
        1,
        1,
    );
    assert_eq!(report.action, Some(LogRecord::RemoveFailed { kind: PathType::Dir }));
    assert_eq!(store.len(), 0);
}

#[test]
fn complete_of_a_rename_moves_the_entry() {
    let mut store = FileStore::new();
    store.create(p("/src/a.txt"), PathMetadata::new(PathType::File, Some([6; 32]), 1));
    let plan = Plan {
        ensure_parent: false,
        action: Action::Rename,
        kind: Some(PathType::File),
        fingerprint: None,
        note: None,
    };
    let from = Some(PendingRename { key: p("/src/a.txt"), destination: p("/dst/a.txt") });
    let report = FileOperationsManager::complete(
        &mut store,
        &utils(&[], false),
        &target("b.txt"),
        &plan,
        &from,
        &DONE,
        50,
        1,
    );
    assert_eq!(report, Report { parent: None, action: acted(Verb::Renamed, PathType::File) });
    assert_eq!(store.peek(&p("/src/a.txt")), None);
    assert_eq!(
        store.peek(&p("/src/b.txt")),
        Some(PathMetadata { path_type: PathType::File, hash: Some([6; 32]), last_change: 50 })
    );
    assert_eq!(store.len(), 1);
}

#[test]
fn complete_of_a_rename_of_an_unknown_path_makes_up_an_entry() {
    let mut store = FileStore::new();
    let plan = Plan {
        ensure_parent: false,
        action: Action::Rename,
        kind: Some(PathType::Dir),
        fingerprint: None,
        note: None,
    };
    let from = Some(PendingRename { key: p("/src/a"), destination: p("/dst/a") });
    FileOperationsManager::complete(
        &mut store,
        &utils(&[], false),
        &target("b"),
        &plan,
        &from,
        &DONE,
        50,
        1,
    );
    assert_eq!(store.peek(&p("/src/b")), Some(PathMetadata::new(PathType::Dir, None, 50)));
    assert_eq!(store.len(), 1);
}

#[test]
fn complete_of_a_rename_that_failed_or_is_unsupported_changes_nothing() {
    let mut store = FileStore::new();
    store.create(p("/src/a.txt"), PathMetadata::new(PathType::File, Some([6; 32]), 1));
    let plan = Plan {
        ensure_parent: false,
        action: Action::Rename,
        kind: Some(PathType::File),
        fingerprint: None,
        note: None,
    };
    let from = Some(PendingRename { key: p("/src/a.txt"), destination: p("/dst/a.txt") });
    let failed = Outcome { parent: IoStatus::Done, action: IoStatus::Failed { code: Some(2) } };
    let utils = utils(&[], false);
    let report = FileOperationsManager::complete(
        &mut store,
        &utils,
        &target("b.txt"),
        &plan,
        &from,
        &failed,
        50,
        1,
    );
    assert_eq!(report, Report { parent: None, action: None });
    let unsupported = Plan { kind: None, ..plan };
    let report = FileOperationsManager::complete(
        &mut store,
        &utils,
        &target("b.txt"),
        &unsupported,
        &from,
        &DONE,
        50,
        1,
    );
    assert_eq!(report.action, Some(LogRecord::RenameUnsupported));
    assert_eq!(
        store.peek(&p("/src/a.txt")),
        Some(PathMetadata::new(PathType::File, Some([6; 32]), 1))
    );
    assert_eq!(store.peek(&p("/src/b.txt")), None);
}

#[test]
fn complete_reports_the_time_when_statistics_are_on() {
    let mut timed = utils(&[], false);
    timed.set_args(Args {
        source_dir: p("/src"),
        target_dir: p("/dst"),
        exclude: Vec::new(),
        exclude_temporary_editor_files: false,
        no_creation_events: false,
        ide_mode: false,
        statistics: true,
        trace: false,
    });
    let mut store = FileStore::new();
    let plan = Plan {
        ensure_parent: false,
        action: Action::CopyFile,
        kind: Some(PathType::File),
        fingerprint: None,
        note: None,
    };
    let report = FileOperationsManager::complete(
        &mut store,
        &timed,
        &target("a.txt"),
        &plan,
        &None,
        &DONE,
        1,
        2_500,
    );
    assert_eq!(
        report.action,
        Some(LogRecord::Action {
            verb: Verb::Copied,
            kind: PathType::File,
            timing: Timing::Millis(2)
        })
    );
}

#[test]
fn excluded_patterns_cover_what_matches() {
    let utils = utils(&["/src/*.tmp", "/src/*/cache"], false);
    assert!(is_in_excluded_paths(&utils, &p("/src/a.tmp")));
    assert!(is_in_excluded_paths(&utils, &p("/src/dir.tmp/inside.txt")));
    assert!(is_in_excluded_paths(&utils, &p("/src/any/cache/x")));
    assert!(!is_in_excluded_paths(&utils, &p("/src/dir/a.tmp")));
    assert!(!is_in_excluded_paths(&utils, &p("/src/a.txt")));
    assert!(!is_in_excluded_paths(&utils, &p("/src/cache")));
    assert!(matches!(
        FileOperationsManager::locate(&utils, &p("/src/a.tmp")),
        Admission::Excluded
    ));
    assert!(matches!(
        FileOperationsManager::locate(&utils, &p("/src/a.txt")),
        Admission::Admitted(_)
    ));
}
