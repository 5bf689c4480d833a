use at::config::Config;
use at::open::{
    default_editor_choice, editor_candidate_names, first_available_editor, is_text_or_code,
    resolve_editor_choice, resolve_open_action, EditorCommand, OpenAction, OpenMode,
};

#[test]
fn directories_resolve_to_cd() {
    let config = Config::default();
    assert_eq!(
        resolve_open_action("/tmp/project", true, OpenMode::Default, &config),
        OpenAction::Cd("/tmp/project".to_owned())
    );
}

#[test]
fn rust_files_use_editor_by_default() {
    let config = Config::default();
    assert_eq!(
        resolve_open_action("/tmp/main.rs", false, OpenMode::Default, &config),
        OpenAction::Editor {
            command: config.open.editor.clone(),
            path: "/tmp/main.rs".to_owned()
        }
    );
}

#[test]
fn images_use_system_opener_by_default() {
    let config = Config::default();
    assert_eq!(
        resolve_open_action("/tmp/map.png", false, OpenMode::Default, &config),
        OpenAction::System {
            command: "xdg-open".to_owned(),
            path: "/tmp/map.png".to_owned()
        }
    );
}

#[test]
fn explicit_editor_mode_uses_editor_for_non_text_files() {
    let config = Config::default();
    assert_eq!(
        resolve_open_action("/tmp/map.png", false, OpenMode::Editor, &config),
        OpenAction::Editor {
            command: config.open.editor.clone(),
            path: "/tmp/map.png".to_owned()
        }
    );
}

#[test]
fn explicit_system_mode_uses_system_opener_for_code_files() {
    let config = Config::default();
    assert_eq!(
        resolve_open_action("/tmp/main.rs", false, OpenMode::System, &config),
        OpenAction::System {
            command: config.open.file_opener.clone(),
            path: "/tmp/main.rs".to_owned()
        }
    );
}

#[test]
fn directories_resolve_to_cd_with_explicit_modes() {
    let config = Config::default();
    assert_eq!(
        resolve_open_action("/tmp/project", true, OpenMode::Editor, &config),
        OpenAction::Cd("/tmp/project".to_owned())
    );
    assert_eq!(
        resolve_open_action("/tmp/project", true, OpenMode::System, &config),
        OpenAction::Cd("/tmp/project".to_owned())
    );
}

#[test]
fn uppercase_text_and_code_extensions_use_editor_by_default() {
    let config = Config::default();
    for path in ["/tmp/README.MD", "/tmp/main.RS", "/tmp/config.JSON"] {
        assert_eq!(
            resolve_open_action(path, false, OpenMode::Default, &config),
            OpenAction::Editor {
                command: config.open.editor.clone(),
                path: path.to_owned()
            }
        );
    }
}

#[test]
fn text_detection_uses_the_extension_only() {
    assert!(is_text_or_code("notes.txt"));
    assert!(is_text_or_code("/a/b/script.sh"));
    assert!(!is_text_or_code("/a/b/Makefile"));
    assert!(!is_text_or_code("/a/b/.bashrc"));
    assert!(!is_text_or_code("/a/rs/archive.tar"));
    assert!(!is_text_or_code("/a/b/photo.jpeg"));
}

#[test]
fn first_found_candidate_is_chosen() {
    assert_eq!(editor_candidate_names(), ["nvim", "vim", "vi", "nano"]);
    assert_eq!(
        first_available_editor(&vec![false, true, true, false]),
        Some("vim".to_owned())
    );
    assert_eq!(first_available_editor(&vec![false, false, false, false]), None);
    assert_eq!(first_available_editor(&vec![]), None);
    assert_eq!(
        first_available_editor(&vec![false, false, false, true, true]),
        Some("nano".to_owned())
    );
}

#[test]
fn editor_choice_keeps_a_found_preferred_editor() {
    assert_eq!(
        resolve_editor_choice(" hx ", true, Some("vim".to_owned())),
        EditorCommand {
            command: "hx".to_owned(),
            fallback_from: None,
        }
    );
}

#[test]
fn editor_choice_falls_back_when_preferred_is_missing() {
    assert_eq!(
        resolve_editor_choice("missing-editor", false, Some("vim".to_owned())),
        EditorCommand {
            command: "vim".to_owned(),
            fallback_from: Some("missing-editor".to_owned()),
        }
    );
    assert_eq!(
        resolve_editor_choice("missing-editor", false, None),
        EditorCommand {
            command: "missing-editor".to_owned(),
            fallback_from: Some("missing-editor".to_owned()),
        }
    );
    assert_eq!(
        resolve_editor_choice("  ", false, None),
        EditorCommand {
            command: "vi".to_owned(),
            fallback_from: None,
        }
    );
}

#[test]
fn default_editor_prefers_a_non_blank_editor_env() {
    assert_eq!(default_editor_choice(Some("hx".to_owned()), None), "hx");
    assert_eq!(
        default_editor_choice(Some(" ".to_owned()), Some("nano".to_owned())),
        "nano"
    );
    assert_eq!(default_editor_choice(None, None), "vi");
}
