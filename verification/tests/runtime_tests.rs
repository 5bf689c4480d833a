use at::config::Config;
use at::flow::{FlowEntry, FlowState};
use at::search::SearchFilter;
use at::settings::SettingsState;
use at::ui::palette::{PaletteItem, PaletteItemKind, PaletteState};
use at::ui::runtime::{
    flow_footer_text, flow_palette_state, focus_path, footer_text, handle_flow_key,
    handle_menu_key, handle_palette_key, handle_search_key, handle_settings_key,
    header_query_text, menu_footer_text, palette_row_kind_text, row_label_width,
    selected_flow_entry, settings_palette_state, visible_item_range, FlowKeyResult, KeyCode,
    KeyPress, PaletteChrome, SearchKeyResult, SettingsOutcome, UiOutcome,
};

fn item(label: &str) -> PaletteItem {
    PaletteItem {
        label: label.to_owned(),
        path: None,
        kind: PaletteItemKind::Menu,
        source: "test".to_owned(),
    }
}

fn key(code: KeyCode) -> KeyPress {
    KeyPress::plain(code)
}

fn ctrl_key(ch: char) -> KeyPress {
    KeyPress::ctrl(ch)
}

/// Runs a search key as the terminal loop does: a refresh asks `refresh`
/// for the new items.
fn run_search_key(
    state: &mut PaletteState,
    key: KeyPress,
    mut refresh: impl FnMut(&str, SearchFilter) -> Vec<PaletteItem>,
) -> Option<UiOutcome> {
    match handle_search_key(state, key) {
        SearchKeyResult::Outcome(outcome) => outcome,
        SearchKeyResult::Refresh => {
            let items = refresh(&state.query, state.filter);
            state.replace_items(items);
            None
        }
    }
}

#[test]
fn menu_enter_on_empty_has_no_outcome() {
    let mut state = PaletteState::new(vec![]);

    let outcome = handle_menu_key(&mut state, key(KeyCode::Enter));

    assert_eq!(outcome, None);
}

#[test]
fn list_shortcuts_do_not_handle_search_or_forced_open_keys() {
    let mut state = PaletteState::new(vec![item("one")]);

    let tab = handle_palette_key(&mut state, key(KeyCode::Tab));
    let typed = handle_palette_key(&mut state, key(KeyCode::Char('x')));
    let editor = handle_palette_key(&mut state, ctrl_key('e'));
    let system = handle_palette_key(&mut state, ctrl_key('o'));

    assert_eq!(tab, None);
    assert_eq!(typed, None);
    assert_eq!(editor, None);
    assert_eq!(system, None);
    assert_eq!(state.query, "");
    assert_eq!(state.filter, SearchFilter::All);
}

#[test]
fn enter_on_non_empty_selects_current_selected_index() {
    let mut state = PaletteState::new(vec![item("one"), item("two")]);
    state.move_down();

    let outcome = handle_palette_key(&mut state, key(KeyCode::Enter));

    assert_eq!(outcome, Some(UiOutcome::Selected(1)));
}

#[test]
fn space_toggles_expansion() {
    let mut state = PaletteState::new(vec![item("one")]);

    let outcome = handle_palette_key(&mut state, key(KeyCode::Char(' ')));

    assert_eq!(outcome, None);
    assert!(state.expanded);
}

#[test]
fn escape_cancels_every_palette() {
    let mut state = PaletteState::new(vec![item("one")]);
    assert_eq!(
        handle_menu_key(&mut state, key(KeyCode::Esc)),
        Some(UiOutcome::Cancelled)
    );
    assert_eq!(
        handle_palette_key(&mut state, key(KeyCode::Esc)),
        Some(UiOutcome::Cancelled)
    );
    assert_eq!(
        handle_search_key(&mut state, key(KeyCode::Esc)),
        SearchKeyResult::Outcome(Some(UiOutcome::Cancelled))
    );
}

#[test]
fn search_typing_refreshes_items_while_preserving_query() {
    let mut state = PaletteState::new(vec![]);
    let mut calls = Vec::new();

    let outcome = run_search_key(&mut state, key(KeyCode::Char('x')), |query, filter| {
        calls.push((query.to_owned(), filter));
        vec![item("refreshed")]
    });

    assert_eq!(outcome, None);
    assert_eq!(state.query, "x");
    assert_eq!(state.items, vec![item("refreshed")]);
    assert_eq!(calls, vec![("x".to_owned(), SearchFilter::All)]);
}

#[test]
fn search_tab_cycles_filter_and_refreshes() {
    let mut state = PaletteState::new(vec![]);
    state.query = "abc".to_owned();
    let mut calls = Vec::new();

    let outcome = run_search_key(&mut state, key(KeyCode::Tab), |query, filter| {
        calls.push((query.to_owned(), filter));
        vec![item("dirs")]
    });

    assert_eq!(outcome, None);
    assert_eq!(state.query, "abc");
    assert_eq!(state.filter, SearchFilter::Dirs);
    assert_eq!(state.items, vec![item("dirs")]);
    assert_eq!(calls, vec![("abc".to_owned(), SearchFilter::Dirs)]);
}

#[test]
fn search_backspace_deletes_and_space_expands() {
    let mut state = PaletteState::new(vec![item("one")]);
    state.query = "ab".to_owned();
    assert_eq!(
        handle_search_key(&mut state, key(KeyCode::Backspace)),
        SearchKeyResult::Refresh
    );
    assert_eq!(state.query, "a");
    assert_eq!(
        handle_search_key(&mut state, key(KeyCode::Char(' '))),
        SearchKeyResult::Outcome(None)
    );
    assert!(state.expanded);
    assert_eq!(state.query, "a");
    assert_eq!(
        handle_search_key(&mut state, ctrl_key('x')),
        SearchKeyResult::Outcome(None)
    );
    assert_eq!(state.query, "a");
    let mut empty = PaletteState::new(vec![]);
    assert_eq!(
        handle_search_key(&mut empty, key(KeyCode::Backspace)),
        SearchKeyResult::Refresh
    );
    assert_eq!(empty.query, "");
}

#[test]
fn palette_row_shows_item_kind_instead_of_source() {
    let state = PaletteState::new(vec![
        PaletteItem::menu("Settings"),
        PaletteItem::dir("/tmp/project".to_owned(), "flow"),
        PaletteItem::file("/tmp/project/main.rs".to_owned(), "search"),
    ]);

    assert_eq!(palette_row_kind_text(&state.items[0]), None);
    assert_eq!(palette_row_kind_text(&state.items[1]), Some("dir"));
    assert_eq!(palette_row_kind_text(&state.items[2]), Some("file"));
}

#[test]
fn palette_rows_scroll_to_keep_selected_item_visible() {
    let mut state =
        PaletteState::new((0..8).map(|index| item(&format!("item-{index}"))).collect());
    state.selected = 7;

    assert_eq!(visible_item_range(&state, 3), 5..8);
}

#[test]
fn short_lists_show_every_row() {
    let mut state = PaletteState::new((0..3).map(|index| item(&format!("item-{index}"))).collect());
    state.selected = 2;
    assert_eq!(visible_item_range(&state, 5), 0..3);
    assert_eq!(visible_item_range(&state, 0), 0..0);
    state.selected = 0;
    assert_eq!(visible_item_range(&state, 2), 0..2);
    assert_eq!(visible_item_range(&PaletteState::new(vec![]), 4), 0..0);
}

#[test]
fn row_width_leaves_room_for_the_kind_hint() {
    assert_eq!(row_label_width(40, &PaletteItem::menu("a")), 38);
    assert_eq!(row_label_width(40, &PaletteItem::dir("/a".to_owned(), "x")), 33);
    assert_eq!(row_label_width(40, &PaletteItem::file("/a".to_owned(), "x")), 32);
    assert_eq!(row_label_width(3, &PaletteItem::file("/a".to_owned(), "x")), 1);
}

#[test]
fn flow_footer_mentions_navigation_keys() {
    let footer = flow_footer_text();

    assert!(footer.contains("Left/Right"));
    assert!(footer.contains("h/l"));
    assert!(!footer.contains("Tab filter"));
    assert!(!footer.contains("Ctrl+E"));
    assert!(!footer.contains("Ctrl+O"));
}

#[test]
fn menu_footer_is_not_search_controls() {
    assert!(!menu_footer_text().contains("Tab filter"));
    assert!(!menu_footer_text().contains("Space expand"));
    assert!(footer_text(PaletteChrome::Search).contains("Tab filter"));
    assert_eq!(footer_text(PaletteChrome::Menu), menu_footer_text());
}

#[test]
fn search_header_shows_placeholder_for_empty_query() {
    let mut state = PaletteState::new(vec![item("Settings")]);
    assert_eq!(header_query_text(&state), "<empty>");
    state.query = "abc".to_owned();
    assert_eq!(header_query_text(&state), "abc");
}

#[test]
fn settings_key_handler_changes_and_returns_saved_config() {
    let mut settings = SettingsState::new(Config::default());

    assert_eq!(
        handle_settings_key(&mut settings, key(KeyCode::Right)),
        None
    );
    let Some(SettingsOutcome::Saved(saved)) =
        handle_settings_key(&mut settings, key(KeyCode::Enter))
    else {
        panic!("expected saved config");
    };

    assert_eq!(saved.general.theme, at::ui::theme::ThemeName::Ink);
}

#[test]
fn settings_escape_cancels_without_returning_config() {
    let mut settings = SettingsState::new(Config::default());

    let outcome = handle_settings_key(&mut settings, key(KeyCode::Esc));

    assert_eq!(outcome, Some(SettingsOutcome::Cancelled));
}

#[test]
fn settings_palette_follows_the_selected_row() {
    let mut settings = SettingsState::new(Config::default());
    handle_settings_key(&mut settings, key(KeyCode::Down));
    handle_settings_key(&mut settings, key(KeyCode::Down));
    let state = settings_palette_state(&settings);
    assert_eq!(state.selected, 2);
    assert_eq!(state.items.len(), 11);
}

fn entries() -> Vec<FlowEntry> {
    vec![
        FlowEntry {
            path: "/w/alpha".to_owned(),
            name: "alpha".to_owned(),
            is_dir: true,
        },
        FlowEntry {
            path: "/w/src".to_owned(),
            name: "src".to_owned(),
            is_dir: true,
        },
        FlowEntry {
            path: "/w/a.rs".to_owned(),
            name: "a.rs".to_owned(),
            is_dir: false,
        },
    ]
}

#[test]
fn flow_palette_lists_entries_without_parent_entry() {
    let flow = FlowState::new("/w".to_owned());
    let state = flow_palette_state(&flow, entries());
    assert_eq!(state.items.len(), 3);
    assert!(!state.items.iter().any(|item| item.label == ".."));
    assert_eq!(state.items[1].kind, PaletteItemKind::Dir);
    assert_eq!(state.items[2].kind, PaletteItemKind::File);
    assert_eq!(state.items[2].source, "flow");
}

#[test]
fn flow_right_enters_selected_directory_and_asks_for_a_reload() {
    let mut flow = FlowState::new("/w".to_owned());
    let mut state = flow_palette_state(&flow, entries());
    state.selected = 1;
    assert_eq!(selected_flow_entry(&state).unwrap().path, "/w/src");

    let result = handle_flow_key(&mut flow, &mut state, key(KeyCode::Right), true);

    assert_eq!(result, FlowKeyResult::Reload { focus: None });
    assert_eq!(flow.cwd, "/w/src");
    assert_eq!(flow.selected, 0);
}

#[test]
fn flow_right_on_a_file_only_keeps_the_selection() {
    let mut flow = FlowState::new("/w".to_owned());
    let mut state = flow_palette_state(&flow, entries());
    state.selected = 2;

    let result = handle_flow_key(&mut flow, &mut state, key(KeyCode::Char('l')), false);

    assert_eq!(result, FlowKeyResult::Outcome(None));
    assert_eq!(flow.cwd, "/w");
    assert_eq!(flow.selected, 2);
}

#[test]
fn flow_left_moves_to_parent_and_keeps_the_child_selected() {
    let mut flow = FlowState::new("/w/src".to_owned());
    let mut state = flow_palette_state(&flow, vec![]);

    let result = handle_flow_key(&mut flow, &mut state, key(KeyCode::Left), false);

    assert_eq!(
        result,
        FlowKeyResult::Reload {
            focus: Some("/w/src".to_owned())
        }
    );
    assert_eq!(flow.cwd, "/w");
    let mut state = flow_palette_state(&flow, entries());
    focus_path(&mut flow, &mut state, "/w/src");
    assert_eq!(state.items[state.selected].label, "src");
    assert_eq!(flow.selected, 1);
}

#[test]
fn flow_up_down_keep_flow_selection_in_step() {
    let mut flow = FlowState::new("/w".to_owned());
    let mut state = flow_palette_state(&flow, entries());
    handle_flow_key(&mut flow, &mut state, key(KeyCode::Down), false);
    handle_flow_key(&mut flow, &mut state, key(KeyCode::Down), false);
    assert_eq!(flow.selected, 2);
    handle_flow_key(&mut flow, &mut state, key(KeyCode::Up), false);
    assert_eq!(flow.selected, 1);
    assert_eq!(
        handle_flow_key(&mut flow, &mut state, key(KeyCode::Enter), false),
        FlowKeyResult::Outcome(Some(UiOutcome::Selected(1)))
    );
    assert_eq!(
        handle_flow_key(&mut flow, &mut state, key(KeyCode::Esc), false),
        FlowKeyResult::Outcome(Some(UiOutcome::Cancelled))
    );
}

#[test]
fn typing_in_flow_turns_the_page_into_a_search() {
    let mut flow = FlowState::new("/w".to_owned());
    let mut state = flow_palette_state(&flow, entries());
    state.selected = 1;

    let result = handle_flow_key(&mut flow, &mut state, key(KeyCode::Char('n')), false);
    assert_eq!(result, FlowKeyResult::Search);
    assert_eq!(state.query, "n");
    let result = handle_flow_key(&mut flow, &mut state, key(KeyCode::Char('i')), false);
    assert_eq!(result, FlowKeyResult::Search);
    assert_eq!(state.query, "ni");
    assert_eq!(state.items.len(), 3);
    assert_eq!(state.selected, 1);
    assert_eq!(flow.cwd, "/w");

    let result = handle_flow_key(&mut flow, &mut state, KeyPress::ctrl('x'), false);
    assert_eq!(result, FlowKeyResult::Outcome(None));
    assert_eq!(state.query, "ni");
}
