use at::flow::{
    flow_start, flow_start_from, git_root_from, git_root_step, sort_entries, FlowEntry, FlowState,
    GitRootProbe,
};
use std::path::Path;
use tempfile::{Builder, NamedTempFile, TempDir};

/// A directory named exactly `name` inside `parent`, removed when dropped.
fn named_dir(parent: &Path, name: &str) -> TempDir {
    Builder::new()
        .prefix(name)
        .rand_bytes(0)
        .tempdir_in(parent)
        .unwrap()
}

/// A file named exactly `name` inside `parent`, removed when dropped.
fn named_file(parent: &Path, name: &str) -> NamedTempFile {
    Builder::new()
        .prefix(name)
        .rand_bytes(0)
        .tempfile_in(parent)
        .unwrap()
}

fn entry(name: &str, is_dir: bool) -> FlowEntry {
    FlowEntry {
        path: format!("/d/{name}"),
        name: name.to_owned(),
        is_dir,
    }
}

#[test]
fn lists_dirs_then_files_by_name() {
    let entries = sort_entries(vec![
        entry("Cargo.toml", false),
        entry("src", true),
        entry("!cache", true),
        entry("README.md", false),
    ]);
    let names: Vec<&str> = entries.iter().map(|e| e.name.as_str()).collect();
    assert_eq!(names, ["!cache", "src", "Cargo.toml", "README.md"]);
    assert!(entries[0].is_dir && entries[1].is_dir);
    assert!(!entries[2].is_dir && !entries[3].is_dir);
}

#[test]
fn sorting_orders_names_by_characters() {
    let entries = sort_entries(vec![
        entry("b", false),
        entry("ab", false),
        entry("a", false),
        entry("B", false),
        entry("é", false),
    ]);
    let names: Vec<&str> = entries.iter().map(|e| e.name.as_str()).collect();
    assert_eq!(names, ["B", "a", "ab", "b", "é"]);
    assert!(sort_entries(vec![]).is_empty());
}

#[test]
fn navigation_resets_selection() {
    let dir = tempfile::tempdir().unwrap();
    let dir_text = dir.path().to_str().unwrap().to_owned();
    let child = named_dir(dir.path(), "src");
    let child_text = child.path().to_str().unwrap().to_owned();
    let cargo_toml = named_file(dir.path(), "Cargo.toml");

    let mut state = FlowState {
        cwd: child_text.clone(),
        selected: 2,
    };
    state.parent();

    assert_eq!(state.cwd, dir_text);
    assert_eq!(state.selected, 0);

    state.selected = 1;
    state.enter(&FlowEntry {
        path: child_text.clone(),
        name: "src".to_owned(),
        is_dir: true,
    });

    assert_eq!(state.cwd, child_text);
    assert_eq!(state.selected, 0);

    state.selected = 1;
    state.enter(&FlowEntry {
        path: cargo_toml.path().to_str().unwrap().to_owned(),
        name: "Cargo.toml".to_owned(),
        is_dir: false,
    });

    assert_eq!(state.cwd, child_text);
    assert_eq!(state.selected, 1);
}

#[test]
fn enter_ignores_stale_directory_entries() {
    let dir = tempfile::tempdir().unwrap();
    let child = named_dir(dir.path(), "src");
    let mut state = FlowState::new(dir.path().to_str().unwrap().to_owned());
    let stale_entry = FlowEntry {
        path: child.path().to_str().unwrap().to_owned(),
        name: "src".to_owned(),
        is_dir: true,
    };
    drop(child);

    state.enter(&stale_entry);

    assert_eq!(state.cwd, dir.path().to_str().unwrap());
}

#[test]
fn enter_if_dir_follows_what_the_disk_said() {
    let mut state = FlowState::new("/tmp/dir".to_owned());
    let src = FlowEntry {
        path: "/tmp/dir/src".to_owned(),
        name: "src".to_owned(),
        is_dir: true,
    };

    state.enter_if_dir(&src, false);
    assert_eq!(state.cwd, "/tmp/dir");

    state.selected = 4;
    state.enter_if_dir(&src, true);
    assert_eq!(state.cwd, "/tmp/dir/src");
    assert_eq!(state.selected, 0);

    let file = FlowEntry {
        path: "/tmp/dir/src/main.rs".to_owned(),
        name: "main.rs".to_owned(),
        is_dir: false,
    };
    state.selected = 2;
    state.enter_if_dir(&file, true);
    assert_eq!(state.cwd, "/tmp/dir/src");
    assert_eq!(state.selected, 2);
}

#[test]
fn detects_git_root() {
    let dir = tempfile::tempdir().unwrap();
    let _git = named_dir(dir.path(), ".git");
    let src = named_dir(dir.path(), "src");
    let nested = named_dir(src.path(), "nested");

    assert_eq!(
        git_root_from(nested.path().to_str().unwrap()),
        Some(dir.path().to_str().unwrap().to_owned())
    );
}

#[test]
fn parent_stays_at_the_root() {
    let mut state = FlowState {
        cwd: "/".to_owned(),
        selected: 3,
    };
    state.parent();
    assert_eq!(state.cwd, "/");
    assert_eq!(state.selected, 3);
}

#[test]
fn git_root_search_walks_up() {
    assert_eq!(
        git_root_step("/w/p/src", false),
        GitRootProbe::Probe("/w/p".to_owned())
    );
    assert_eq!(
        git_root_step("/w/p", true),
        GitRootProbe::Found("/w/p".to_owned())
    );
    assert_eq!(git_root_step("/", false), GitRootProbe::NotFound);
}

#[test]
fn starts_from_git_root_when_enabled() {
    let dir = tempfile::tempdir().unwrap();
    let _git = named_dir(dir.path(), ".git");
    let src = named_dir(dir.path(), "src");
    let nested = named_dir(src.path(), "nested");

    assert_eq!(
        flow_start(nested.path().to_str().unwrap(), true),
        dir.path().to_str().unwrap()
    );
}

#[test]
fn starts_where_invoked_when_git_root_is_off() {
    let dir = tempfile::tempdir().unwrap();
    let _git = named_dir(dir.path(), ".git");
    let nested = named_dir(dir.path(), "src");

    assert_eq!(
        flow_start(nested.path().to_str().unwrap(), false),
        nested.path().to_str().unwrap()
    );
}

#[test]
fn start_takes_the_git_root_found() {
    assert_eq!(flow_start_from("/w/p/src", true, Some("/w/p".to_owned())), "/w/p");
    assert_eq!(flow_start_from("/w/p/src", true, None), "/w/p/src");
    assert_eq!(
        flow_start_from("/w/p/src", false, Some("/w/p".to_owned())),
        "/w/p/src"
    );
}
