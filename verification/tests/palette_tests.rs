use at::path_display::display_path;
use at::search::SearchFilter;
use at::ui::palette::{PaletteItem, PaletteItemKind, PaletteState};

fn path_item(label: &str, path: &str, kind: PaletteItemKind) -> PaletteItem {
    PaletteItem {
        label: label.to_owned(),
        path: Some(path.to_owned()),
        kind,
        source: "test".to_owned(),
    }
}

fn menu_item(label: &str) -> PaletteItem {
    PaletteItem {
        label: label.to_owned(),
        path: None,
        kind: PaletteItemKind::Menu,
        source: "menu".to_owned(),
    }
}

#[test]
fn new_defaults_to_collapsed_all_filter_with_first_item_selected() {
    let state = PaletteState::new(vec![menu_item("Open settings")]);

    assert_eq!(state.query, "");
    assert_eq!(state.selected, 0);
    assert_eq!(state.selected_index(), Some(0));
    assert!(!state.expanded);
    assert_eq!(state.filter, SearchFilter::All);
    assert_eq!(state.selected_item().unwrap().label, "Open settings");
}

#[test]
fn empty_palette_has_no_selected_index() {
    let state = PaletteState::new(vec![]);

    assert_eq!(state.selected_index(), None);
    assert_eq!(state.selected_item(), None);
}

#[test]
fn movement_saturates_and_resets_expansion_on_non_empty_lists() {
    let mut state = PaletteState::new(vec![menu_item("one"), menu_item("two")]);

    state.toggle_expanded();
    state.move_down();
    assert_eq!(state.selected, 1);
    assert!(!state.expanded);

    state.toggle_expanded();
    state.move_down();
    assert_eq!(state.selected, 1);
    assert!(!state.expanded);

    state.toggle_expanded();
    state.move_up();
    assert_eq!(state.selected, 0);
    assert!(!state.expanded);

    state.toggle_expanded();
    state.move_up();
    assert_eq!(state.selected, 0);
    assert!(!state.expanded);
}

#[test]
fn cycle_filter_rotates_all_dirs_files() {
    let mut state = PaletteState::new(vec![]);

    state.cycle_filter();
    assert_eq!(state.filter, SearchFilter::Dirs);

    state.cycle_filter();
    assert_eq!(state.filter, SearchFilter::Files);

    state.cycle_filter();
    assert_eq!(state.filter, SearchFilter::All);
}

#[test]
fn expanded_selected_path_displays_full_path() {
    let path = "/home/congke/work/at-flow/src/ui/palette.rs";
    let mut state = PaletteState::new(vec![path_item("palette", path, PaletteItemKind::File)]);

    state.toggle_expanded();

    assert_eq!(
        state.display_label_at(0, 18).unwrap(),
        display_path(path, true, 18)
    );
}

#[test]
fn index_based_display_does_not_need_item_pointer_identity() {
    let path = "/home/congke/work/at-flow/src/ui/palette.rs";
    let mut state = PaletteState::new(vec![path_item("palette", path, PaletteItemKind::File)]);
    let cloned_item = state.items[0].clone();

    state.toggle_expanded();

    assert_eq!(
        state.display_label_at(0, 18).unwrap(),
        display_path(cloned_item.path.as_ref().unwrap(), true, 18)
    );
}

#[test]
fn non_selected_paths_stay_clipped_when_another_item_is_expanded() {
    let selected_path = "/home/congke/work/at-flow/src/main.rs";
    let other_path = "/home/congke/work/at-flow/src/ui/palette.rs";
    let mut state = PaletteState::new(vec![
        path_item("main", selected_path, PaletteItemKind::File),
        path_item("palette", other_path, PaletteItemKind::File),
    ]);

    state.toggle_expanded();

    assert_eq!(
        state.display_label_at(1, 18).unwrap(),
        display_path(other_path, false, 18)
    );
}

#[test]
fn display_label_does_not_expand_equal_non_selected_duplicates() {
    let path = "/home/congke/work/at-flow/src/ui/palette.rs";
    let item = path_item("palette", path, PaletteItemKind::File);
    let mut state = PaletteState::new(vec![item.clone(), item]);

    state.toggle_expanded();

    assert_eq!(
        state.display_label(&state.items[1], 18),
        display_path(path, false, 18)
    );
}

#[test]
fn menu_items_display_their_label() {
    let state = PaletteState::new(vec![menu_item("Open settings")]);

    assert_eq!(state.display_label_at(0, 3).unwrap(), "Open settings");
}

#[test]
fn stale_selected_index_is_clamped_for_public_selection_methods() {
    let mut state = PaletteState::new(vec![menu_item("one"), menu_item("two")]);
    state.selected = 99;

    assert_eq!(state.selected_index(), Some(1));
    assert_eq!(state.selected_item().unwrap().label, "two");

    state.toggle_expanded();
    state.move_up();

    assert_eq!(state.selected_index(), Some(0));
    assert_eq!(state.selected, 0);
    assert!(!state.expanded);
}

#[test]
fn stale_selected_index_expands_the_clamped_item() {
    let path = "/home/congke/work/at-flow/src/ui/palette.rs";
    let mut state = PaletteState::new(vec![
        menu_item("Open settings"),
        path_item("palette", path, PaletteItemKind::File),
    ]);
    state.selected = 99;
    state.toggle_expanded();

    assert_eq!(
        state.display_label_at(1, 18).unwrap(),
        display_path(path, true, 18)
    );
    assert_eq!(state.display_label_at(99, 18), None);
}

#[test]
fn replace_items_resets_selection_and_expansion() {
    let mut state = PaletteState::new(vec![menu_item("one"), menu_item("two")]);
    state.move_down();
    state.toggle_expanded();

    state.replace_items(vec![menu_item("replacement")]);

    assert_eq!(state.selected, 0);
    assert!(!state.expanded);
    assert_eq!(state.selected_item().unwrap().label, "replacement");
}

#[test]
fn empty_palette_ignores_movement() {
    let mut state = PaletteState::new(vec![]);
    state.toggle_expanded();
    state.move_down();
    state.move_up();
    assert_eq!(state.selected, 0);
    assert!(state.expanded);
}

#[test]
fn constructors_set_kind_path_and_source() {
    let menu = PaletteItem::menu("Settings");
    assert_eq!(menu, menu_item("Settings"));
    let dir = PaletteItem::dir("/tmp/project".to_owned(), "flow");
    assert_eq!(dir.kind, PaletteItemKind::Dir);
    assert_eq!(dir.path.as_deref(), Some("/tmp/project"));
    assert_eq!(dir.source, "flow");
    let file = PaletteItem::file("/tmp/a.rs".to_owned(), "search");
    assert_eq!(file.kind, PaletteItemKind::File);
}
