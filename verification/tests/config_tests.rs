use at::config::{at_file_path, default_config_path, Config, SearchRootMode};
use at::history::default_history_path;
use at::ui::theme::ThemeName;

#[test]
fn default_config_matches_mvp_defaults() {
    let config = Config::default();
    assert_eq!(config.general.theme, ThemeName::Mist);
    assert_eq!(config.general.max_recent, 100);
    assert!(config.general.start_from_git_root);
    assert_eq!(config.open.editor, "nvim");
    assert_eq!(config.open.gui_editor, "code");
    assert_eq!(config.open.file_opener, "xdg-open");
    assert!(config.open.prefer_terminal_editor);
    assert_eq!(config.search.root_mode, SearchRootMode::Invocation);
    assert_eq!(config.search.roots, ["~/work", "~/code", "~/Documents"]);
    assert_eq!(
        config.search.ignore,
        [
            ".git",
            "node_modules",
            "__pycache__",
            ".venv",
            "target",
            "dist"
        ]
    );
    assert!(config.history.record_atflow_opens);
    assert!(!config.history.record_shell_cd);
}

#[test]
fn search_root_mode_defaults_to_invocation() {
    assert_eq!(SearchRootMode::default(), SearchRootMode::Invocation);
    assert_eq!(ThemeName::default(), ThemeName::Mist);
}

#[test]
fn files_live_in_an_at_directory() {
    assert_eq!(at_file_path(None, "config.toml"), "./at/config.toml");
    assert_eq!(
        at_file_path(Some("/home/u/.local/share".to_owned()), "history.sqlite"),
        "/home/u/.local/share/at/history.sqlite"
    );
}

#[test]
fn default_paths_follow_the_system_directories() {
    let config_base = dirs::config_dir()
        .map(|p| p.to_string_lossy().into_owned())
        .unwrap_or_else(|| ".".to_owned());
    assert_eq!(default_config_path(), format!("{config_base}/at/config.toml"));

    let data_base = dirs::data_dir()
        .map(|p| p.to_string_lossy().into_owned())
        .unwrap_or_else(|| ".".to_owned());
    assert_eq!(default_history_path(), format!("{data_base}/at/history.sqlite"));
}
