use at::history::{HistoryDb, HistoryEntry, HistoryError, HistorySource, PathKind};

#[test]
fn conversion_methods_use_spec_names() {
    assert_eq!(PathKind::from_str("file"), PathKind::File);
    assert_eq!(PathKind::from_str("dir"), PathKind::Dir);
    assert_eq!(
        HistorySource::from_str("shell_cd_hook"),
        HistorySource::ShellCdHook
    );
    assert_eq!(
        HistorySource::from_str("manual_root_scan"),
        HistorySource::ManualRootScan
    );
    assert_eq!(HistorySource::from_str("unknown"), HistorySource::Atflow);
}

#[test]
fn conversion_types_implement_from_str_trait() {
    assert_eq!("file".parse::<PathKind>().unwrap(), PathKind::File);
    assert_eq!("dir".parse::<PathKind>().unwrap(), PathKind::Dir);
    assert_eq!(
        "shell_cd_hook".parse::<HistorySource>().unwrap(),
        HistorySource::ShellCdHook
    );
    assert_eq!(
        "manual_root_scan".parse::<HistorySource>().unwrap(),
        HistorySource::ManualRootScan
    );
    assert_eq!(
        "unknown".parse::<HistorySource>().unwrap(),
        HistorySource::Atflow
    );
}

#[test]
fn stored_names_read_back_as_the_same_value() {
    for kind in [PathKind::Dir, PathKind::File] {
        assert_eq!(PathKind::from_str(kind.as_str()), kind);
    }
    for source in [
        HistorySource::Atflow,
        HistorySource::ShellCdHook,
        HistorySource::ManualRootScan,
    ] {
        assert_eq!(HistorySource::from_str(source.as_str()), source);
    }
    assert_eq!(PathKind::Dir.as_str(), "dir");
    assert_eq!(HistorySource::ShellCdHook.as_str(), "shell_cd_hook");
}

#[test]
fn unknown_kind_reads_as_directory() {
    assert_eq!(PathKind::from_str("FILE"), PathKind::Dir);
    assert_eq!(PathKind::from_str(""), PathKind::Dir);
}

#[test]
fn records_and_sorts_recent_directories() {
    let mut db = HistoryDb::open_memory();
    db.record_path_at("/tmp/old", PathKind::Dir, HistorySource::Atflow, 100)
        .unwrap();
    db.record_path_at("/tmp/new", PathKind::Dir, HistorySource::ShellCdHook, 200)
        .unwrap();
    db.record_path_at("/tmp/file.rs", PathKind::File, HistorySource::Atflow, 300)
        .unwrap();

    let recent = db.recent_dirs(10);

    assert_eq!(recent.len(), 2);
    assert_eq!(recent[0].path, "/tmp/new");
    assert_eq!(recent[0].source, HistorySource::ShellCdHook);
    assert_eq!(recent[1].path, "/tmp/old");
}

#[test]
fn updates_existing_path_count_and_time() {
    let mut db = HistoryDb::open_memory();
    db.record_path_at("/tmp/project", PathKind::Dir, HistorySource::Atflow, 100)
        .unwrap();
    db.record_path_at("/tmp/project", PathKind::Dir, HistorySource::ShellCdHook, 300)
        .unwrap();

    let recent = db.recent_dirs(10);

    assert_eq!(recent.len(), 1);
    assert_eq!(recent[0].last_opened_at, 300);
    assert_eq!(recent[0].open_count, 2);
    assert_eq!(recent[0].source, HistorySource::ShellCdHook);
}

#[test]
fn sorts_tied_timestamps_by_open_count() {
    let mut db = HistoryDb::open_memory();
    db.record_path_at("/tmp/less-opened", PathKind::Dir, HistorySource::Atflow, 500)
        .unwrap();
    db.record_path_at("/tmp/more-opened", PathKind::Dir, HistorySource::Atflow, 100)
        .unwrap();
    db.record_path_at("/tmp/more-opened", PathKind::Dir, HistorySource::ShellCdHook, 500)
        .unwrap();

    let recent = db.recent_dirs(10);

    assert_eq!(recent[0].path, "/tmp/more-opened");
    assert_eq!(recent[0].open_count, 2);
    assert_eq!(recent[1].path, "/tmp/less-opened");
    assert_eq!(recent[1].open_count, 1);
}

#[test]
fn recent_dirs_stop_at_the_limit() {
    let mut db = HistoryDb::open_memory();
    for (i, path) in ["/a", "/b", "/c", "/d"].into_iter().enumerate() {
        db.record_path_at(path, PathKind::Dir, HistorySource::Atflow, i as i64)
            .unwrap();
    }

    let recent = db.recent_dirs(2);
    assert_eq!(recent.len(), 2);
    assert_eq!(recent[0].path, "/d");
    assert_eq!(recent[1].path, "/c");
    assert!(db.recent_dirs(0).is_empty());
}

#[test]
fn a_file_recorded_again_as_a_directory_becomes_a_directory() {
    let mut db = HistoryDb::open_memory();
    db.record_path_at("/tmp/x", PathKind::File, HistorySource::Atflow, 10)
        .unwrap();
    assert!(db.recent_dirs(5).is_empty());
    db.record_path_at("/tmp/x", PathKind::Dir, HistorySource::ManualRootScan, 20)
        .unwrap();

    let entry = db.entry_for("/tmp/x").unwrap();
    assert_eq!(entry.kind, PathKind::Dir);
    assert_eq!(entry.source, HistorySource::ManualRootScan);
    assert_eq!(entry.open_count, 2);
    assert_eq!(db.recent_dirs(5).len(), 1);
    assert_eq!(db.entry_for("/tmp/y"), None);
}

#[test]
fn latest_recorded_directory_comes_first() {
    let mut db = HistoryDb::open_memory();
    db.record_path_at("/one", PathKind::Dir, HistorySource::Atflow, 5)
        .unwrap();
    db.record_path_at("/two", PathKind::Dir, HistorySource::Atflow, 7)
        .unwrap();
    db.record_path_at("/two", PathKind::Dir, HistorySource::Atflow, 8)
        .unwrap();
    db.record_path_at("/one", PathKind::Dir, HistorySource::Atflow, 9)
        .unwrap();

    let recent = db.recent_dirs(1);
    assert_eq!(recent.len(), 1);
    assert_eq!(recent[0].path, "/one");
    assert_eq!(recent[0].last_opened_at, 9);
}

#[test]
fn a_full_open_count_refuses_another_record() {
    let mut db = HistoryDb::open_memory();
    db.put_entry(HistoryEntry {
        path: "/busy".to_owned(),
        kind: PathKind::Dir,
        source: HistorySource::Atflow,
        last_opened_at: 1,
        open_count: i64::MAX,
    });

    assert_eq!(
        db.record_path_at("/busy", PathKind::Dir, HistorySource::Atflow, 2),
        Err(HistoryError::CountOverflow)
    );
    let entry = db.entry_for("/busy").unwrap();
    assert_eq!(entry.last_opened_at, 1);
    assert_eq!(entry.open_count, i64::MAX);
}

#[test]
fn put_entry_replaces_the_row_of_its_path() {
    let mut db = HistoryDb::open_memory();
    db.record_path_at("/p", PathKind::Dir, HistorySource::Atflow, 3)
        .unwrap();
    let replacement = HistoryEntry {
        path: "/p".to_owned(),
        kind: PathKind::File,
        source: HistorySource::ShellCdHook,
        last_opened_at: 40,
        open_count: 7,
    };
    db.put_entry(replacement.clone());

    assert_eq!(db.entry_for("/p"), Some(replacement));
    assert!(db.recent_dirs(3).is_empty());
}
