//! What each key does to a palette, to Flow and to the settings menu, and
//! which rows of a long list are on screen. The terminal loop that reads the
//! keys and draws the rows runs these.

use vstd::prelude::*;

use crate::config::Config;
use crate::flow::{FlowEntry, FlowState};
use crate::path_display::displayed;
use crate::search::SearchFilter;
use crate::settings::{SettingsState, SETTING_FIELD_COUNT};
use crate::text::str_eq;
use crate::ui::palette::{
    clamped_index, filter_cycled, moved_down, moved_up, toggled, PaletteItem, PaletteItemKind,
    PaletteState,
};

verus! {

/// How a palette was left.
#[derive(Debug, Clone, Copy, PartialEq, Eq, Structural)]
pub enum UiOutcome {
    Selected(usize),
    Cancelled,
    Editor(usize),
    System(usize),
}

/// How a palette was left, with the palette as it was then.
#[derive(Debug, Clone, PartialEq, Eq)]
pub struct UiResponse {
    pub outcome: UiOutcome,
    pub state: PaletteState,
}

/// How the settings menu was left.
#[derive(Debug, Clone, PartialEq, Eq)]
pub enum SettingsOutcome {
    Saved(Config),
    Cancelled,
}

/// A key as the palettes tell keys apart.
#[derive(Debug, Clone, Copy, PartialEq, Eq, Structural)]
pub enum KeyCode {
    Esc,
    Enter,
    Up,
    Down,
    Left,
    Right,
    Tab,
    Backspace,
    Char(char),
    Other,
}

/// A key press, with the modifiers that keep a character from being typed.
#[derive(Debug, Clone, Copy, PartialEq, Eq, Structural)]
pub struct KeyPress {
    pub code: KeyCode,
    pub control: bool,
    pub alt: bool,
}

impl KeyPress {
    /// A key pressed with no modifier.
    pub fn plain(code: KeyCode) -> (r: Self)
        ensures
            r == (KeyPress { code, control: false, alt: false }),
    {
        KeyPress { code, control: false, alt: false }
    }

    /// A character pressed with Control.
    pub fn ctrl(c: char) -> (r: Self)
        ensures
            r == (KeyPress { code: KeyCode::Char(c), control: true, alt: false }),
    {
        KeyPress { code: KeyCode::Char(c), control: true, alt: false }
    }
}

/// Whether a key types text: neither Control nor Alt is held.
pub open spec fn is_plain(key: KeyPress) -> bool {
    !key.control && !key.alt
}

pub fn is_plain_text_modifier(key: KeyPress) -> (r: bool)
    ensures
        r == is_plain(key),
{
    !key.control && !key.alt
}

/// Enter selects the selected row, if there is one.
pub open spec fn enter_outcome(state: PaletteState) -> Option<UiOutcome> {
    match clamped_index(state.items@.len(), state.selected) {
        Some(i) => Some(UiOutcome::Selected(i)),
        None => None,
    }
}

/// The menu keys: Esc cancels, Enter selects, Up and Down move.
pub open spec fn menu_key_effect(
    old_state: PaletteState,
    new_state: PaletteState,
    key: KeyPress,
    r: Option<UiOutcome>,
) -> bool {
    match key.code {
        KeyCode::Esc => r == Some(UiOutcome::Cancelled) && new_state == old_state,
        KeyCode::Enter => r == enter_outcome(old_state) && new_state == old_state,
        KeyCode::Up => r is None && new_state == moved_up(old_state),
        KeyCode::Down => r is None && new_state == moved_down(old_state),
        _ => r is None && new_state == old_state,
    }
}

pub fn handle_menu_key(state: &mut PaletteState, key: KeyPress) -> (r: Option<UiOutcome>)
    ensures
        menu_key_effect(*old(state), *final(state), key, r),
{
    match key.code {
        KeyCode::Esc => Some(UiOutcome::Cancelled),
        KeyCode::Enter => match state.selected_index() {
            Some(i) => Some(UiOutcome::Selected(i)),
            None => None,
        },
        KeyCode::Up => {
            state.move_up();
            None
        },
        KeyCode::Down => {
            state.move_down();
            None
        },
        _ => None,
    }
}

/// The list keys: the menu keys, and a plain Space that shows the selected
/// path whole or clipped.
pub open spec fn palette_key_effect(
    old_state: PaletteState,
    new_state: PaletteState,
    key: KeyPress,
    r: Option<UiOutcome>,
) -> bool {
    if key.code == KeyCode::Char(' ') {
        r is None && new_state == if is_plain(key) {
            toggled(old_state)
        } else {
            old_state
        }
    } else {
        menu_key_effect(old_state, new_state, key, r)
    }
}

pub fn handle_palette_key(state: &mut PaletteState, key: KeyPress) -> (r: Option<UiOutcome>)
    ensures
        palette_key_effect(*old(state), *final(state), key, r),
{
    match key.code {
        KeyCode::Char(' ') => {
            if is_plain_text_modifier(key) {
                state.toggle_expanded();
            }
            None
        },
        _ => handle_menu_key(state, key),
    }
}

/// What a key in the search palette asks of the caller: to finish (or not)
/// with an outcome, or to run the search again for the new query or filter
/// and put its items in the palette.
#[derive(Debug, Clone, Copy, PartialEq, Eq, Structural)]
pub enum SearchKeyResult {
    Outcome(Option<UiOutcome>),
    Refresh,
}

/// The search keys: Tab turns the filter, Backspace deletes the last
/// character of the query, a plain character is typed (a plain Space shows
/// the selected path whole or clipped instead); each change of query or
/// filter asks for a new search. Any other key acts as in a list.
pub open spec fn search_key_effect(
    old_state: PaletteState,
    new_state: PaletteState,
    key: KeyPress,
    r: SearchKeyResult,
) -> bool {
    match key.code {
        KeyCode::Tab => r == SearchKeyResult::Refresh && new_state == filter_cycled(old_state),
        KeyCode::Backspace => r == SearchKeyResult::Refresh && new_state == PaletteState {
            query: new_state.query,
            ..old_state
        } && new_state.query@ == if old_state.query@.len() > 0 {
            old_state.query@.drop_last()
        } else {
            old_state.query@
        },
        KeyCode::Char(c) if is_plain(key) && c == ' ' => r == SearchKeyResult::Outcome(None)
            && new_state == toggled(old_state),
        KeyCode::Char(c) if is_plain(key) => r == SearchKeyResult::Refresh && new_state
            == PaletteState { query: new_state.query, ..old_state } && new_state.query@
            == old_state.query@.push(c),
        _ => exists|o: Option<UiOutcome>|
            r == SearchKeyResult::Outcome(o) && palette_key_effect(old_state, new_state, key, o),
    }
}

/// `String::pop`: removes the last character, if any.
#[verifier::external_body]
fn pop_char(s: &mut String) -> (r: Option<char>)
    ensures
        old(s)@.len() > 0 ==> r == Some(old(s)@.last()) && final(s)@ == old(s)@.drop_last(),
        old(s)@.len() == 0 ==> r is None && final(s)@ == old(s)@,
{
    s.pop()
}

pub fn handle_search_key(state: &mut PaletteState, key: KeyPress) -> (r: SearchKeyResult)
    ensures
        search_key_effect(*old(state), *final(state), key, r),
{
    match key.code {
        KeyCode::Tab => {
            state.cycle_filter();
            SearchKeyResult::Refresh
        },
        KeyCode::Backspace => {
            pop_char(&mut state.query);
            SearchKeyResult::Refresh
        },
        KeyCode::Char(c) => {
            if is_plain_text_modifier(key) {
                if c == ' ' {
                    state.toggle_expanded();
                    SearchKeyResult::Outcome(None)
                } else {
                    crate::text::push_char(&mut state.query, c);
                    SearchKeyResult::Refresh
                }
            } else {
                let o = handle_palette_key(state, key);
                SearchKeyResult::Outcome(o)
            }
        },
        _ => {
            let o = handle_palette_key(state, key);
            SearchKeyResult::Outcome(o)
        },
    }
}

/// What a key in Flow asks of the caller: to finish (or not) with an
/// outcome; to list the new directory of Flow and show it, with the row of
/// `focus` selected when it is listed there; or to turn the page into a
/// search for the palette's query and show its results.
#[derive(Debug, Clone, PartialEq, Eq)]
pub enum FlowKeyResult {
    Outcome(Option<UiOutcome>),
    Reload { focus: Option<String> },
    Search,
}

/// The Flow entry a palette row stands for: its path, its label as the
/// name, and whether it is a directory row.
pub open spec fn entry_of_item(item: PaletteItem) -> Option<FlowEntry> {
    match item.path {
        Some(p) => Some(FlowEntry { path: p, name: item.label, is_dir: item.kind == PaletteItemKind::Dir }),
        None => None,
    }
}

/// The Flow entry of the selected row, if it has a path.
pub open spec fn selected_entry_of(state: PaletteState) -> Option<FlowEntry> {
    match clamped_index(state.items@.len(), state.selected) {
        Some(i) => entry_of_item(state.items@[i as int]),
        None => None,
    }
}

/// Flow's selection made the palette's.
pub open spec fn synced_selection(state: PaletteState) -> usize {
    match clamped_index(state.items@.len(), state.selected) {
        Some(i) => i,
        None => 0,
    }
}

pub fn sync_flow_selection(flow: &mut FlowState, state: &PaletteState)
    ensures
        final(flow).selected == synced_selection(*state),
        final(flow).cwd == old(flow).cwd,
{
    flow.selected = match state.selected_index() {
        Some(i) => i,
        None => 0,
    };
}

fn copy_item(item: &PaletteItem) -> (r: PaletteItem)
    ensures
        r == *item,
{
    PaletteItem {
        label: item.label.clone(),
        path: match &item.path {
            Some(p) => Some(p.clone()),
            None => None,
        },
        kind: item.kind,
        source: item.source.clone(),
    }
}

pub fn selected_flow_entry(state: &PaletteState) -> (r: Option<FlowEntry>)
    ensures
        r == selected_entry_of(*state),
{
    let item = match state.selected_item() {
        Some(item) => item,
        None => return None,
    };
    let path = match &item.path {
        Some(p) => p.clone(),
        None => return None,
    };
    Some(
        FlowEntry {
            path,
            name: item.label.clone(),
            is_dir: match item.kind {
                PaletteItemKind::Dir => true,
                _ => false,
            },
        },
    )
}

/// The Flow keys: Left or a plain `h`/`H` go to the parent (and ask for a
/// reload that keeps the directory just left selected); Right or a plain
/// `l`/`L` enter the selected directory when it still is one
/// (`selected_is_dir` says so of the disk) and ask for a reload, else only
/// keep Flow's selection; Up and Down move; Esc, Enter and Space as in a list;
/// any other plain character is typed at the end of the query and turns
/// the page into a search for it.
pub open spec fn flow_key_effect(
    old_flow: FlowState,
    new_flow: FlowState,
    old_state: PaletteState,
    new_state: PaletteState,
    key: KeyPress,
    selected_is_dir: bool,
    r: FlowKeyResult,
) -> bool {
    let goes_up = key.code == KeyCode::Left || (is_plain(key) && (key.code == KeyCode::Char('h')
        || key.code == KeyCode::Char('H')));
    let goes_in = key.code == KeyCode::Right || (is_plain(key) && (key.code == KeyCode::Char('l')
        || key.code == KeyCode::Char('L')));
    if goes_up {
        &&& new_state == old_state
        &&& match crate::paths::parent_of(old_flow.cwd@) {
            Some(p) => new_flow.cwd@ == p && new_flow.selected == 0,
            None => new_flow.cwd@ == old_flow.cwd@ && new_flow.selected == old_flow.selected,
        }
        &&& r matches FlowKeyResult::Reload { focus: Some(f) }
        &&& f@ == old_flow.cwd@
    } else if goes_in {
        &&& new_state == old_state
        &&& match selected_entry_of(old_state) {
            Some(e) if e.is_dir && selected_is_dir => {
                &&& new_flow.cwd@ == e.path@
                &&& (e.path@ != old_flow.cwd@ ==> r == FlowKeyResult::Reload { focus: None }
                    && new_flow.selected == 0)
                &&& (e.path@ == old_flow.cwd@ ==> r == FlowKeyResult::Outcome(None)
                    && new_flow.selected == synced_selection(old_state))
            },
            _ => {
                &&& new_flow.cwd@ == old_flow.cwd@
                &&& new_flow.selected == synced_selection(old_state)
                &&& r == FlowKeyResult::Outcome(None)
            },
        }
    } else {
        match key.code {
            KeyCode::Esc => r == FlowKeyResult::Outcome(Some(UiOutcome::Cancelled)) && new_state
                == old_state && new_flow == old_flow,
            KeyCode::Enter => r == FlowKeyResult::Outcome(enter_outcome(old_state)) && new_state
                == old_state && new_flow == old_flow,
            KeyCode::Up => r == FlowKeyResult::Outcome(None) && new_state == moved_up(old_state)
                && new_flow.cwd@ == old_flow.cwd@ && new_flow.selected == synced_selection(
                new_state,
            ),
            KeyCode::Down => r == FlowKeyResult::Outcome(None) && new_state == moved_down(
                old_state,
            ) && new_flow.cwd@ == old_flow.cwd@ && new_flow.selected == synced_selection(new_state),
            KeyCode::Char(c) if c == ' ' && is_plain(key) => r == FlowKeyResult::Outcome(None)
                && new_state == toggled(old_state) && new_flow == old_flow,
            KeyCode::Char(c) if is_plain(key) => r == FlowKeyResult::Search && new_state
                == PaletteState { query: new_state.query, ..old_state } && new_state.query@
                == old_state.query@.push(c) && new_flow == old_flow,
            _ => r == FlowKeyResult::Outcome(None) && new_state == old_state && new_flow
                == old_flow,
        }
    }
}

pub fn handle_flow_key(
    flow: &mut FlowState,
    state: &mut PaletteState,
    key: KeyPress,
    selected_is_dir: bool,
) -> (r: FlowKeyResult)
    ensures
        flow_key_effect(*old(flow), *final(flow), *old(state), *final(state), key, selected_is_dir, r),
{
    let plain = is_plain_text_modifier(key);
    let goes_up = match key.code {
        KeyCode::Left => true,
        KeyCode::Char(c) => plain && (c == 'h' || c == 'H'),
        _ => false,
    };
    let goes_in = match key.code {
        KeyCode::Right => true,
        KeyCode::Char(c) => plain && (c == 'l' || c == 'L'),
        _ => false,
    };
    if goes_up {
        let before = flow.cwd.clone();
        flow.parent();
        return FlowKeyResult::Reload { focus: Some(before) };
    }
    if goes_in {
        if let Some(entry) = selected_flow_entry(state) {
            if entry.is_dir && selected_is_dir {
                let changes_dir = !str_eq(entry.path.as_str(), flow.cwd.as_str());
                flow.enter_if_dir(&entry, selected_is_dir);
                if changes_dir {
                    return FlowKeyResult::Reload { focus: None };
                }
                sync_flow_selection(flow, state);
                return FlowKeyResult::Outcome(None);
            }
        }
        sync_flow_selection(flow, state);
        return FlowKeyResult::Outcome(None);
    }
    match key.code {
        KeyCode::Esc => FlowKeyResult::Outcome(Some(UiOutcome::Cancelled)),
        KeyCode::Enter => FlowKeyResult::Outcome(
            match state.selected_index() {
                Some(i) => Some(UiOutcome::Selected(i)),
                None => None,
            },
        ),
        KeyCode::Up => {
            state.move_up();
            sync_flow_selection(flow, state);
            FlowKeyResult::Outcome(None)
        },
        KeyCode::Down => {
            state.move_down();
            sync_flow_selection(flow, state);
            FlowKeyResult::Outcome(None)
        },
        KeyCode::Char(c) => {
            if !plain {
                FlowKeyResult::Outcome(None)
            } else if c == ' ' {
                state.toggle_expanded();
                FlowKeyResult::Outcome(None)
            } else {
                crate::text::push_char(&mut state.query, c);
                FlowKeyResult::Search
            }
        },
        _ => FlowKeyResult::Outcome(None),
    }
}


/// In Flow, Left and a plain `h` or `H` all go up: the directory becomes
/// its parent with the first row selected (at a root it stays, selection
/// and all), the query and the rows are left as they were, and a reload is
/// asked for that selects the directory just left.
pub proof fn flow_up_keys_go_to_parent(
    old_flow: FlowState,
    new_flow: FlowState,
    old_state: PaletteState,
    new_state: PaletteState,
    key: KeyPress,
    selected_is_dir: bool,
    r: FlowKeyResult,
)
    requires
        key.code == KeyCode::Left || (!key.control && !key.alt && (key.code == KeyCode::Char('h')
            || key.code == KeyCode::Char('H'))),
        flow_key_effect(old_flow, new_flow, old_state, new_state, key, selected_is_dir, r),
    ensures
        new_state.query@ == old_state.query@,
        new_state.items@ == old_state.items@,
        match crate::paths::parent_of(old_flow.cwd@) {
            Some(p) => new_flow.cwd@ == p && new_flow.selected == 0,
            None => new_flow.cwd@ == old_flow.cwd@ && new_flow.selected == old_flow.selected,
        },
        r matches FlowKeyResult::Reload { focus: Some(f) } && f@ == old_flow.cwd@,
{
}

/// In Flow, Right and a plain `l` or `L` go into the selected row when it
/// is a directory that the disk still has (`selected_is_dir`): Flow's
/// directory becomes that row's path; otherwise Flow stays in its
/// directory. Either way the query and the rows are left as they were and
/// nothing is opened or searched.
pub proof fn flow_in_keys_enter_the_selected_directory(
    old_flow: FlowState,
    new_flow: FlowState,
    old_state: PaletteState,
    new_state: PaletteState,
    key: KeyPress,
    selected_is_dir: bool,
    r: FlowKeyResult,
)
    requires
        key.code == KeyCode::Right || (!key.control && !key.alt && (key.code == KeyCode::Char('l')
            || key.code == KeyCode::Char('L'))),
        flow_key_effect(old_flow, new_flow, old_state, new_state, key, selected_is_dir, r),
    ensures
        new_state.query@ == old_state.query@,
        new_state.items@ == old_state.items@,
        match clamped_index(old_state.items@.len(), old_state.selected) {
            Some(i) => {
                let item = old_state.items@[i as int];
                if item.kind == PaletteItemKind::Dir && item.path is Some && selected_is_dir {
                    new_flow.cwd@ == item.path->0@
                } else {
                    new_flow.cwd@ == old_flow.cwd@
                }
            },
            None => new_flow.cwd@ == old_flow.cwd@,
        },
        r == FlowKeyResult::Outcome(None) || r matches FlowKeyResult::Reload { focus: None },
{
}

/// In Flow, a plain character that is not a navigation key (`h`, `H`, `l`,
/// `L`) and not Space is typed at the end of the query and asks for a
/// search; Flow's directory, its selection and the rows stay as they were.
pub proof fn flow_typing_starts_a_search(
    old_flow: FlowState,
    new_flow: FlowState,
    old_state: PaletteState,
    new_state: PaletteState,
    c: char,
    selected_is_dir: bool,
    r: FlowKeyResult,
)
    requires
        c != 'h' && c != 'H' && c != 'l' && c != 'L' && c != ' ',
        flow_key_effect(
            old_flow,
            new_flow,
            old_state,
            new_state,
            KeyPress { code: KeyCode::Char(c), control: false, alt: false },
            selected_is_dir,
            r,
        ),
    ensures
        r == FlowKeyResult::Search,
        new_state.query@ == old_state.query@.push(c),
        new_state.items@ == old_state.items@,
        new_state.selected == old_state.selected,
        new_flow == old_flow,
{
}

/// Whether `item` is the palette row of the Flow entry `entry`.
pub open spec fn is_flow_item(item: PaletteItem, entry: FlowEntry) -> bool {
    &&& item.label == entry.name
    &&& item.path == Some(entry.path)
    &&& item.kind == if entry.is_dir {
        PaletteItemKind::Dir
    } else {
        PaletteItemKind::File
    }
    &&& item.source@ == "flow"@
}

pub fn flow_item(entry: FlowEntry) -> (r: PaletteItem)
    ensures
        is_flow_item(r, entry),
{
    let kind = if entry.is_dir {
        PaletteItemKind::Dir
    } else {
        PaletteItemKind::File
    };
    PaletteItem { label: entry.name, path: Some(entry.path), kind, source: "flow".to_owned() }
}

/// The palette of a listed directory: one row per entry, in order, with
/// Flow's selection (clamped to the last row), collapsed, unfiltered.
pub fn flow_palette_state(flow: &FlowState, entries: Vec<FlowEntry>) -> (r: PaletteState)
    ensures
        r.items@.len() == entries@.len(),
        forall|i: int| 0 <= i < entries@.len() ==> is_flow_item(#[trigger] r.items@[i], entries@[i]),
        r.selected == if entries@.len() == 0 {
            0
        } else if flow.selected < entries@.len() {
            flow.selected
        } else {
            (entries@.len() - 1) as usize
        },
        r.query@ == Seq::<char>::empty(),
        !r.expanded,
        r.filter == SearchFilter::All,
{
    let mut items: Vec<PaletteItem> = Vec::new();
    let ghost all = entries@;
    let n = entries.len();
    let mut i: usize = 0;
    while i < n
        invariant
            n == all.len(),
            i <= n,
            items@.len() == i,
            forall|k: int| 0 <= k < i ==> is_flow_item(#[trigger] items@[k], all[k]),
            entries@ == all,
        decreases n - i,
    {
        let entry = crate::flow::copy_entry(&entries[i]);
        items.push(flow_item(entry));
        i += 1;
    }
    let mut state = PaletteState::new(items);
    if n > 0 {
        state.selected = if flow.selected < n {
            flow.selected
        } else {
            n - 1
        };
    }
    state
}

/// Selects the row whose path is `path`, in the palette and in Flow; when
/// no row has that path, both are left as they are.
pub fn focus_path(flow: &mut FlowState, state: &mut PaletteState, path: &str)
    ensures
        final(state).items == old(state).items,
        final(state).query == old(state).query,
        final(state).expanded == old(state).expanded,
        final(state).filter == old(state).filter,
        final(flow).cwd == old(flow).cwd,
        match first_item_with_path(old(state).items@, path@) {
            Some(i) => final(state).selected == i && final(flow).selected == i,
            None => final(state).selected == old(state).selected && final(flow).selected == old(
                flow,
            ).selected,
        },
{
    let mut i: usize = 0;
    while i < state.items.len()
        invariant
            i <= state.items@.len(),
            state == old(state),
            flow == old(flow),
            first_item_with_path(state.items@, path@) == first_item_with_path_from(
                state.items@,
                path@,
                i as int,
            ),
        decreases state.items@.len() - i,
    {
        let hit = match &state.items[i].path {
            Some(p) => str_eq(p.as_str(), path),
            None => false,
        };
        if hit {
            state.selected = i;
            flow.selected = i;
            return;
        }
        i += 1;
    }
}

/// The first row whose path is `path`.
pub open spec fn first_item_with_path(items: Seq<PaletteItem>, path: Seq<char>) -> Option<usize> {
    first_item_with_path_from(items, path, 0)
}

/// The first row from the `i`-th on whose path is `path`.
pub open spec fn first_item_with_path_from(
    items: Seq<PaletteItem>,
    path: Seq<char>,
    i: int,
) -> Option<usize>
    decreases items.len() - i,
{
    if i < 0 || i >= items.len() {
        None
    } else if items[i].path matches Some(p) && p@ == path {
        Some(i as usize)
    } else {
        first_item_with_path_from(items, path, i + 1)
    }
}

/// The palette of the settings menu: its rows, with its selected row.
pub fn settings_palette_state(settings: &SettingsState) -> (r: PaletteState)
    ensures
        r.selected == settings.spec_selected(),
        r.items@.len() == SETTING_FIELD_COUNT,
        !r.expanded,
        r.filter == SearchFilter::All,
        r.query@ == Seq::<char>::empty(),
{
    let mut state = PaletteState::new(settings.palette_items());
    state.selected = settings.selected();
    state
}

/// The settings keys: Esc cancels, Enter saves the edited configuration, Up
/// and Down move between rows, Left and Right change the selected setting.
pub fn handle_settings_key(settings: &mut SettingsState, key: KeyPress) -> (r: Option<
    SettingsOutcome,
>)
    ensures
        match key.code {
            KeyCode::Esc => r == Some(SettingsOutcome::Cancelled) && *final(settings) == *old(
                settings,
            ),
            KeyCode::Enter => *final(settings) == *old(settings) && (r matches Some(
                SettingsOutcome::Saved(c),
            ) && c@ == old(settings).spec_config()@),
            KeyCode::Up => r is None && final(settings).spec_selected() == (if old(
                settings,
            ).spec_selected() == 0 {
                (SETTING_FIELD_COUNT - 1) as usize
            } else {
                (old(settings).spec_selected() - 1) as usize
            }) && final(settings).spec_config() == old(settings).spec_config(),
            KeyCode::Down => r is None && final(settings).spec_selected() == (old(
                settings,
            ).spec_selected() + 1) % (SETTING_FIELD_COUNT as int) && final(settings).spec_config()
                == old(settings).spec_config(),
            KeyCode::Left => r is None && final(settings).spec_config()@
                == crate::settings::changed(
                old(settings).spec_config()@,
                old(settings).spec_selected() as int,
                -1,
            ) && final(settings).spec_selected() == old(settings).spec_selected(),
            KeyCode::Right => r is None && final(settings).spec_config()@
                == crate::settings::changed(
                old(settings).spec_config()@,
                old(settings).spec_selected() as int,
                1,
            ) && final(settings).spec_selected() == old(settings).spec_selected(),
            _ => r is None && *final(settings) == *old(settings),
        },
{
    match key.code {
        KeyCode::Esc => Some(SettingsOutcome::Cancelled),
        KeyCode::Enter => Some(SettingsOutcome::Saved(crate::config::copy_config(settings.config()))),
        KeyCode::Up => {
            settings.move_up();
            None
        },
        KeyCode::Down => {
            settings.move_down();
            None
        },
        KeyCode::Left => {
            settings.change_left();
            None
        },
        KeyCode::Right => {
            settings.change_right();
            None
        },
        _ => None,
    }
}

/// The kinds of palette screens, each with its own key hints.
#[derive(Debug, Clone, Copy, PartialEq, Eq, Structural)]
pub enum PaletteChrome {
    Menu,
    List,
    Search,
    Flow,
    Settings,
}

pub const MENU_FOOTER: &'static str = "Esc cancel  Enter select  Up/Down move";

pub const LIST_FOOTER: &'static str = "Esc cancel  Enter open  Up/Down move  Space expand";

pub const SEARCH_FOOTER: &'static str =
    "Esc cancel  Enter open  Up/Down move  Space expand  Tab filter";

pub const FLOW_FOOTER: &'static str =
    "Esc cancel  Enter open  Up/Down move  Left/Right or h/l navigate  Space expand";

pub const SETTINGS_FOOTER: &'static str = "Esc cancel  Enter save  Up/Down move  Left/Right change";

pub fn menu_footer_text() -> (r: &'static str)
    ensures
        r@ == MENU_FOOTER@,
{
    MENU_FOOTER
}

pub fn list_footer_text() -> (r: &'static str)
    ensures
        r@ == LIST_FOOTER@,
{
    LIST_FOOTER
}

pub fn search_footer_text() -> (r: &'static str)
    ensures
        r@ == SEARCH_FOOTER@,
{
    SEARCH_FOOTER
}

pub fn flow_footer_text() -> (r: &'static str)
    ensures
        r@ == FLOW_FOOTER@,
{
    FLOW_FOOTER
}

pub fn settings_footer_text() -> (r: &'static str)
    ensures
        r@ == SETTINGS_FOOTER@,
{
    SETTINGS_FOOTER
}

/// The key hints of each screen.
pub open spec fn footer_of(chrome: PaletteChrome) -> Seq<char> {
    match chrome {
        PaletteChrome::Menu => MENU_FOOTER@,
        PaletteChrome::List => LIST_FOOTER@,
        PaletteChrome::Search => SEARCH_FOOTER@,
        PaletteChrome::Flow => FLOW_FOOTER@,
        PaletteChrome::Settings => SETTINGS_FOOTER@,
    }
}

pub fn footer_text(chrome: PaletteChrome) -> (r: &'static str)
    ensures
        r@ == footer_of(chrome),
{
    match chrome {
        PaletteChrome::Menu => menu_footer_text(),
        PaletteChrome::List => list_footer_text(),
        PaletteChrome::Search => search_footer_text(),
        PaletteChrome::Flow => flow_footer_text(),
        PaletteChrome::Settings => settings_footer_text(),
    }
}

/// The rows shown in a window of `max_rows`: all of them when they fit,
/// else the window that ends at the selected row, or starts at the first.
pub open spec fn visible_range_of(len: nat, selected: usize, max_rows: nat) -> (int, int) {
    if len == 0 || max_rows == 0 {
        (0, 0)
    } else if len <= max_rows {
        (0, len as int)
    } else {
        let s = match clamped_index(len, selected) {
            Some(i) => i as int,
            None => 0,
        };
        let start = if s + 1 > max_rows {
            s + 1 - max_rows
        } else {
            0
        };
        (start, start + max_rows)
    }
}

pub fn visible_item_range(state: &PaletteState, max_rows: usize) -> (r: std::ops::Range<usize>)
    ensures
        (r.start as int, r.end as int) == visible_range_of(
            state.items@.len(),
            state.selected,
            max_rows as nat,
        ),
{
    if state.items.len() == 0 || max_rows == 0 {
        return 0..0;
    }
    let len = state.items.len();
    let selected = match state.selected_index() {
        Some(i) => i,
        None => 0,
    };
    if len <= max_rows {
        return 0..len;
    }
    let start = if selected + 1 > max_rows {
        selected + 1 - max_rows
    } else {
        0
    };
    start..(start + max_rows)
}

/// A window of rows holds the selected row, lies within the list, and is as
/// tall as the screen allows.
pub proof fn visible_range_holds_selection(len: nat, selected: usize, max_rows: nat)
    requires
        len > 0,
        max_rows > 0,
    ensures
        ({
            let (start, end) = visible_range_of(len, selected, max_rows);
            let s = clamped_index(len, selected)->0;
            &&& 0 <= start <= s < end <= len
            &&& end - start == if len <= max_rows {
                len as int
            } else {
                max_rows as int
            }
        }),
{
}

/// The kind hint a row carries, none for a menu row.
pub open spec fn kind_hint(kind: PaletteItemKind) -> Option<Seq<char>> {
    match kind {
        PaletteItemKind::Menu => None,
        PaletteItemKind::Dir => Some("dir"@),
        PaletteItemKind::File => Some("file"@),
    }
}

pub fn palette_row_kind_text(item: &PaletteItem) -> (r: Option<&'static str>)
    ensures
        match r {
            Some(t) => kind_hint(item.kind) == Some(t@),
            None => kind_hint(item.kind) is None,
        },
{
    match item.kind {
        PaletteItemKind::Menu => None,
        PaletteItemKind::Dir => Some("dir"),
        PaletteItemKind::File => Some("file"),
    }
}

/// The width left for a row's text: the row minus the marker and the kind
/// hint with its two spaces, at least one.
pub open spec fn label_width_of(area_width: nat, kind: PaletteItemKind) -> nat {
    let hint = match kind_hint(kind) {
        Some(t) => t.len() + 2,
        None => 0,
    };
    if area_width > hint + 2 {
        (area_width - hint - 2) as nat
    } else {
        1
    }
}

pub fn row_label_width(area_width: usize, item: &PaletteItem) -> (r: usize)
    ensures
        r == label_width_of(area_width as nat, item.kind),
{
    proof {
        reveal_strlit("dir");
        reveal_strlit("file");
    }
    let hint: usize = match item.kind {
        PaletteItemKind::Menu => 0,
        PaletteItemKind::Dir => 5,
        PaletteItemKind::File => 6,
    };
    if area_width > hint + 2 {
        area_width - hint - 2
    } else {
        1
    }
}

/// The text a row shows: its path or label fitted to the width its hint
/// leaves, and whole when it is the selected, expanded row.
pub open spec fn row_text_at(state: PaletteState, index: int, area_width: nat) -> Seq<char> {
    let item = state.items@[index];
    let expanded = state.expanded && clamped_index(state.items@.len(), state.selected) == Some(
        index as usize,
    );
    match item.path {
        Some(p) => displayed(p@, expanded, label_width_of(area_width, item.kind)),
        None => item.label@,
    }
}

/// What one visible row shows: whether it is the selected row (marked and
/// highlighted), its text, and its kind hint.
#[derive(Debug, Clone, PartialEq, Eq)]
pub struct RowView {
    pub index: usize,
    pub selected: bool,
    pub label: String,
    pub hint: Option<&'static str>,
}

/// The rows a list area of `area_width` by `area_height` shows: those of the
/// visible window, in order. An empty palette shows none (the screen says
/// there are no results instead).
pub fn palette_row_views(state: &PaletteState, area_width: usize, area_height: usize) -> (r: Vec<
    RowView,
>)
    ensures
        ({
            let (start, end) = visible_range_of(
                state.items@.len(),
                state.selected,
                area_height as nat,
            );
            &&& r@.len() == end - start
            &&& forall|k: int|
                0 <= k < r@.len() ==> {
                    let v = #[trigger] r@[k];
                    &&& v.index == start + k
                    &&& v.selected == (clamped_index(state.items@.len(), state.selected) == Some(
                        v.index,
                    ))
                    &&& v.label@ == row_text_at(*state, v.index as int, area_width as nat)
                    &&& match v.hint {
                        Some(t) => kind_hint(state.items@[v.index as int].kind) == Some(t@),
                        None => kind_hint(state.items@[v.index as int].kind) is None,
                    }
                }
        }),
{
    let range = visible_item_range(state, area_height);
    let selected = state.selected_index();
    let mut rows: Vec<RowView> = Vec::new();
    let mut index = range.start;
    while index < range.end
        invariant
            (range.start as int, range.end as int) == visible_range_of(
                state.items@.len(),
                state.selected,
                area_height as nat,
            ),
            range.end <= state.items@.len(),
            range.start <= index <= range.end,
            selected == clamped_index(state.items@.len(), state.selected),
            rows@.len() == index - range.start,
            forall|k: int|
                0 <= k < rows@.len() ==> {
                    let v = #[trigger] rows@[k];
                    &&& v.index == range.start + k
                    &&& v.selected == (clamped_index(state.items@.len(), state.selected) == Some(
                        v.index,
                    ))
                    &&& v.label@ == row_text_at(*state, v.index as int, area_width as nat)
                    &&& match v.hint {
                        Some(t) => kind_hint(state.items@[v.index as int].kind) == Some(t@),
                        None => kind_hint(state.items@[v.index as int].kind) is None,
                    }
                },
        decreases range.end - index,
    {
        let item = &state.items[index];
        let width = row_label_width(area_width, item);
        let label = match state.display_label_at(index, width) {
            Some(t) => t,
            None => item.label.clone(),
        };
        let is_selected = match selected {
            Some(s) => s == index,
            None => false,
        };
        rows.push(
            RowView { index, selected: is_selected, label, hint: palette_row_kind_text(item) },
        );
        index += 1;
    }
    rows
}

/// The name of a filter, as the search header shows it.
pub open spec fn filter_text(filter: SearchFilter) -> Seq<char> {
    match filter {
        SearchFilter::All => "all"@,
        SearchFilter::Dirs => "dirs"@,
        SearchFilter::Files => "files"@,
    }
}

pub fn filter_label(filter: SearchFilter) -> (r: &'static str)
    ensures
        r@ == filter_text(filter),
{
    match filter {
        SearchFilter::All => "all",
        SearchFilter::Dirs => "dirs",
        SearchFilter::Files => "files",
    }
}

/// The query as the search header shows it: `<empty>` before anything is typed.
pub fn header_query_text(state: &PaletteState) -> (r: String)
    ensures
        r@ == if state.query@.len() == 0 {
            "<empty>"@
        } else {
            state.query@
        },
{
    if state.query.as_str().is_empty() {
        "<empty>".to_owned()
    } else {
        state.query.clone()
    }
}

} // verus!
