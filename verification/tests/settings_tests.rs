use at::config::Config;
use at::settings::{SettingsState, SETTING_FIELD_COUNT};
use at::ui::theme::ThemeName;

#[test]
fn right_and_left_cycle_theme() {
    let mut state = SettingsState::new(Config::default());

    state.change_right();
    assert_eq!(state.config().general.theme, ThemeName::Ink);

    state.change_left();
    assert_eq!(state.config().general.theme, ThemeName::Mist);
}

#[test]
fn selected_boolean_toggles_with_either_direction() {
    let mut state = SettingsState::new(Config::default());
    state.move_down();
    state.move_down();

    state.change_right();
    assert!(!state.config().general.start_from_git_root);

    state.change_left();
    assert!(state.config().general.start_from_git_root);
}

#[test]
fn movement_wraps_between_first_and_last_setting_rows() {
    let mut state = SettingsState::new(Config::default());

    state.move_up();
    assert_eq!(state.selected(), SETTING_FIELD_COUNT - 1);

    state.move_down();
    assert_eq!(state.selected(), 0);
}

#[test]
fn string_options_keep_custom_value_in_cycle() {
    let mut config = Config::default();
    config.open.editor = "custom-editor".to_owned();
    let mut state = SettingsState::new(config);
    state.move_down();
    state.move_down();
    state.move_down();

    state.change_right();
    assert_eq!(state.config().open.editor, "nvim");
}

#[test]
fn palette_rows_include_all_current_values() {
    let state = SettingsState::new(Config::default());
    let rows: Vec<String> = state
        .palette_items()
        .into_iter()
        .map(|item| item.label)
        .collect();

    assert!(rows.iter().any(|row| row.contains("Theme")));
    assert!(rows.iter().any(|row| row.contains("mist")));
    assert!(rows.iter().any(|row| row.contains("Search roots")));
    assert!(rows.iter().any(|row| row.contains("~/work")));
}

#[test]
fn palette_rows_pad_labels_to_a_column() {
    let state = SettingsState::new(Config::default());
    let rows: Vec<String> = state
        .palette_items()
        .into_iter()
        .map(|item| item.label)
        .collect();

    assert_eq!(rows.len(), SETTING_FIELD_COUNT);
    assert_eq!(rows[0], "Theme              mist");
    assert_eq!(rows[1], "Max recent         100");
    assert_eq!(rows[2], "Git root start     on");
    assert_eq!(rows[8], "Record shell cd    off");
    assert_eq!(rows[9], "Search roots       ~/work, ~/code, ~/Documents");
}

#[test]
fn empty_lists_show_none() {
    let mut config = Config::default();
    config.search.ignore.clear();
    let state = SettingsState::new(config);
    let rows: Vec<String> = state
        .palette_items()
        .into_iter()
        .map(|item| item.label)
        .collect();
    assert_eq!(rows[10], "Ignore names       <none>");
}

#[test]
fn left_from_first_option_wraps_to_last() {
    let mut state = SettingsState::new(Config::default());
    state.change_left();
    assert_eq!(state.config().general.theme, ThemeName::Paper);

    state.move_down();
    state.change_right();
    assert_eq!(state.config().general.max_recent, 200);
    state.change_right();
    state.change_right();
    assert_eq!(state.config().general.max_recent, 25);
    state.change_left();
    assert_eq!(state.config().general.max_recent, 500);
}

#[test]
fn list_rows_cycle_through_presets() {
    let mut state = SettingsState::new(Config::default());
    for _ in 0..9 {
        state.move_down();
    }
    state.change_right();
    assert_eq!(state.config().search.roots, ["~/work"]);
    state.change_right();
    assert_eq!(state.config().search.roots, ["~"]);
    state.change_right();
    assert!(state.config().search.roots.is_empty());
    state.change_right();
    assert_eq!(state.config().search.roots, ["~/work", "~/code", "~/Documents"]);

    state.move_down();
    state.change_left();
    assert!(state.config().search.ignore.is_empty());
}

#[test]
fn right_then_left_restores_a_listed_value() {
    let initial = Config::default();
    let mut state = SettingsState::new(initial.clone());
    for _ in 0..SETTING_FIELD_COUNT {
        state.change_right();
        state.change_left();
        assert_eq!(state.config(), &initial);
        state.move_down();
    }
    assert_eq!(state.into_config(), initial);
}

#[test]
fn a_cloned_menu_keeps_its_config_and_row() {
    let mut state = SettingsState::new(Config::default());
    state.move_down();
    state.change_right();
    let copy = state.clone();
    assert_eq!(copy, state);
    assert_eq!(copy.selected(), 1);
    assert_eq!(copy.into_config(), state.into_config());
}
