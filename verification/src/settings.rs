//! The settings menu: one row per setting, Left/Right to cycle its value.

use vstd::prelude::*;
use vstd::string::*;

use vstd::arithmetic::div_mod::{lemma_fundamental_div_mod_converse, lemma_small_mod};

use crate::config::{default_ignore, Config, ConfigView};
use crate::text::{
    clone_strings, decimal, decimal_string, from_chars, join_strings, joined, str_eq,
    strings_eq, to_chars, views,
};
use crate::ui::palette::{PaletteItem, PaletteItemKind};
use crate::ui::theme::{theme_text, ThemeName};

verus! {

pub open spec fn cycle_pos(index: int, len: int, step: int) -> int {
    if len <= 0 {
        0
    } else {
        (index + step) % len
    }
}

proof fn lemma_negative_mod(a: int, l: int, m: int)
    requires
        a < 0,
        l > 0,
        m == (-a) % l,
    ensures
        (if m == 0 { 0 } else { l - m }) == a % l,
{
    let q = (-a) / l;
    assert(-a == q * l + m) by (nonlinear_arith)
        requires
            l > 0,
            m == (-a) % l,
            q == (-a) / l,
    ;
    assert(0 <= m < l) by (nonlinear_arith)
        requires
            l > 0,
            m == (-a) % l,
    ;
    if m == 0 {
        assert(a == (-q) * l) by (nonlinear_arith)
            requires
                -a == q * l,
        ;
        vstd::arithmetic::div_mod::lemma_mod_multiples_basic(-q, l);
    } else {
        assert(a == (-q - 1) * l + (l - m)) by (nonlinear_arith)
            requires
                -a == q * l + m,
        ;
        lemma_fundamental_div_mod_converse(a, l, -q - 1, l - m);
    }
}

fn cycle_index(current: usize, len: usize, step: isize) -> (r: usize)
    ensures
        r == cycle_pos(current as int, len as int, step as int),
        len > 0 ==> r < len,
{
    if len == 0 {
        return 0;
    }
    let l = len as i128;
    let a = current as i128 + step as i128;
    if a >= 0 {
        (a % l) as usize
    } else {
        let m = (-a) % l;
        proof {
            lemma_negative_mod(a as int, l as int, m as int);
        }
        if m == 0 {
            0
        } else {
            (l - m) as usize
        }
    }
}


/// The settings, in the order of their rows.
#[derive(Debug, Clone, Copy, PartialEq, Eq, Structural)]
enum SettingField {
    Theme,
    MaxRecent,
    StartFromGitRoot,
    Editor,
    GuiEditor,
    FileOpener,
    PreferTerminalEditor,
    RecordAtflowOpens,
    RecordShellCd,
    SearchRoots,
    IgnoreNames,
}

/// The number of rows of the settings menu.
pub const SETTING_FIELD_COUNT: usize = 11;

spec fn field_at(row: int) -> SettingField {
    if row == 0 {
        SettingField::Theme
    } else if row == 1 {
        SettingField::MaxRecent
    } else if row == 2 {
        SettingField::StartFromGitRoot
    } else if row == 3 {
        SettingField::Editor
    } else if row == 4 {
        SettingField::GuiEditor
    } else if row == 5 {
        SettingField::FileOpener
    } else if row == 6 {
        SettingField::PreferTerminalEditor
    } else if row == 7 {
        SettingField::RecordAtflowOpens
    } else if row == 8 {
        SettingField::RecordShellCd
    } else if row == 9 {
        SettingField::SearchRoots
    } else {
        SettingField::IgnoreNames
    }
}

fn field_at_row(row: usize) -> (r: SettingField)
    ensures
        r == field_at(row as int),
{
    if row == 0 {
        SettingField::Theme
    } else if row == 1 {
        SettingField::MaxRecent
    } else if row == 2 {
        SettingField::StartFromGitRoot
    } else if row == 3 {
        SettingField::Editor
    } else if row == 4 {
        SettingField::GuiEditor
    } else if row == 5 {
        SettingField::FileOpener
    } else if row == 6 {
        SettingField::PreferTerminalEditor
    } else if row == 7 {
        SettingField::RecordAtflowOpens
    } else if row == 8 {
        SettingField::RecordShellCd
    } else if row == 9 {
        SettingField::SearchRoots
    } else {
        SettingField::IgnoreNames
    }
}

/// The label of each row.
pub open spec fn row_label_text(row: int) -> Seq<char> {
    if row == 0 {
        "Theme"@
    } else if row == 1 {
        "Max recent"@
    } else if row == 2 {
        "Git root start"@
    } else if row == 3 {
        "Editor"@
    } else if row == 4 {
        "GUI editor"@
    } else if row == 5 {
        "File opener"@
    } else if row == 6 {
        "Terminal editor"@
    } else if row == 7 {
        "Record @ opens"@
    } else if row == 8 {
        "Record shell cd"@
    } else if row == 9 {
        "Search roots"@
    } else {
        "Ignore names"@
    }
}

impl SettingField {
    fn label(self) -> (r: &'static str)
        ensures
            forall|row: int| 0 <= row < 11 && field_at(row) == self ==> r@ == row_label_text(row),
    {
        match self {
            SettingField::Theme => "Theme",
            SettingField::MaxRecent => "Max recent",
            SettingField::StartFromGitRoot => "Git root start",
            SettingField::Editor => "Editor",
            SettingField::GuiEditor => "GUI editor",
            SettingField::FileOpener => "File opener",
            SettingField::PreferTerminalEditor => "Terminal editor",
            SettingField::RecordAtflowOpens => "Record @ opens",
            SettingField::RecordShellCd => "Record shell cd",
            SettingField::SearchRoots => "Search roots",
            SettingField::IgnoreNames => "Ignore names",
        }
    }
}

/// The position of the first `x` in `s` (the length of `s` when absent).
pub open spec fn first_position<T>(s: Seq<T>, x: T) -> int
    decreases s.len(),
{
    if s.len() == 0 || s[0] == x {
        0
    } else {
        1 + first_position(s.drop_first(), x)
    }
}

/// The value one step away from `current` among the options: the options
/// are `base`, with `current` put in front when it is not one of them, and
/// the step wraps around at both ends.
pub open spec fn cycled<T>(current: T, base: Seq<T>, step: int) -> T {
    if base.contains(current) {
        base[cycle_pos(first_position(base, current), base.len() as int, step)]
    } else {
        (seq![current] + base)[cycle_pos(0, base.len() + 1int, step)]
    }
}

proof fn lemma_first_position_skip<T>(s: Seq<T>, x: T, i: int)
    requires
        0 <= i <= s.len(),
        forall|k: int| 0 <= k < i ==> s[k] != x,
    ensures
        first_position(s, x) == i + first_position(s.subrange(i, s.len() as int), x),
    decreases i,
{
    if i == 0 {
        assert(s.subrange(0, s.len() as int) =~= s);
    } else {
        let t = s.drop_first();
        assert forall|k: int| 0 <= k < i - 1 implies t[k] != x by {
            assert(t[k] == s[k + 1]);
        }
        lemma_first_position_skip(t, x, i - 1);
        assert(t.subrange(i - 1, t.len() as int) =~= s.subrange(i, s.len() as int));
    }
}

/// Where `x` first stands in `s`, if anywhere: the search loops of the
/// option lists end here.
proof fn lemma_position_found<T>(s: Seq<T>, x: T, i: int)
    requires
        0 <= i < s.len(),
        s[i] == x,
        forall|k: int| 0 <= k < i ==> s[k] != x,
    ensures
        s.contains(x),
        first_position(s, x) == i,
{
    lemma_first_position_skip(s, x, i);
    assert(s.subrange(i, s.len() as int)[0] == x);
}

/// The themes, in the order Right cycles them.
pub open spec fn theme_options() -> Seq<ThemeName> {
    seq![ThemeName::Mist, ThemeName::Ink, ThemeName::Paper]
}

pub open spec fn recent_options() -> Seq<usize> {
    seq![25usize, 50usize, 100usize, 200usize, 500usize]
}

pub open spec fn editor_options() -> Seq<Seq<char>> {
    seq!["nvim"@, "vim"@, "vi"@, "nano"@, "hx"@, "code"@]
}

pub open spec fn gui_editor_options() -> Seq<Seq<char>> {
    seq!["code"@, "zed"@, "cursor"@, "subl"@]
}

pub open spec fn opener_options() -> Seq<Seq<char>> {
    seq!["xdg-open"@, "open"@]
}

pub open spec fn root_options() -> Seq<Seq<Seq<char>>> {
    seq![seq!["~/work"@, "~/code"@, "~/Documents"@], seq!["~/work"@], seq!["~"@], seq![]]
}

pub open spec fn ignore_options() -> Seq<Seq<Seq<char>>> {
    seq![default_ignore(), seq![".git"@, "node_modules"@, "target"@], seq![]]
}

/// The configuration after Left (`step` -1) or Right (`step` 1) on `row`:
/// a choice cycles through its options, a switch flips.
pub open spec fn changed(c: ConfigView, row: int, step: int) -> ConfigView {
    if row == 0 {
        ConfigView { theme: cycled(c.theme, theme_options(), step), ..c }
    } else if row == 1 {
        ConfigView { max_recent: cycled(c.max_recent, recent_options(), step), ..c }
    } else if row == 2 {
        ConfigView { start_from_git_root: !c.start_from_git_root, ..c }
    } else if row == 3 {
        ConfigView { editor: cycled(c.editor, editor_options(), step), ..c }
    } else if row == 4 {
        ConfigView { gui_editor: cycled(c.gui_editor, gui_editor_options(), step), ..c }
    } else if row == 5 {
        ConfigView { file_opener: cycled(c.file_opener, opener_options(), step), ..c }
    } else if row == 6 {
        ConfigView { prefer_terminal_editor: !c.prefer_terminal_editor, ..c }
    } else if row == 7 {
        ConfigView { record_atflow_opens: !c.record_atflow_opens, ..c }
    } else if row == 8 {
        ConfigView { record_shell_cd: !c.record_shell_cd, ..c }
    } else if row == 9 {
        ConfigView { roots: cycled(c.roots, root_options(), step), ..c }
    } else {
        ConfigView { ignore: cycled(c.ignore, ignore_options(), step), ..c }
    }
}

/// How a switch shows.
pub open spec fn on_off(b: bool) -> Seq<char> {
    if b {
        "on"@
    } else {
        "off"@
    }
}

/// How a list of names shows: joined by commas, `<none>` when empty.
pub open spec fn list_text(v: Seq<Seq<char>>) -> Seq<char> {
    if v.len() == 0 {
        "<none>"@
    } else {
        joined(v, ", "@)
    }
}

/// The value a row shows.
pub open spec fn value_text(c: ConfigView, row: int) -> Seq<char> {
    if row == 0 {
        theme_text(c.theme)
    } else if row == 1 {
        decimal(c.max_recent as nat)
    } else if row == 2 {
        on_off(c.start_from_git_root)
    } else if row == 3 {
        c.editor
    } else if row == 4 {
        c.gui_editor
    } else if row == 5 {
        c.file_opener
    } else if row == 6 {
        on_off(c.prefer_terminal_editor)
    } else if row == 7 {
        on_off(c.record_atflow_opens)
    } else if row == 8 {
        on_off(c.record_shell_cd)
    } else if row == 9 {
        list_text(c.roots)
    } else {
        list_text(c.ignore)
    }
}

/// `s` padded with spaces on the right to `width` characters.
pub open spec fn padded(s: Seq<char>, width: nat) -> Seq<char> {
    if s.len() >= width {
        s
    } else {
        s + Seq::new((width - s.len()) as nat, |i: int| ' ')
    }
}

/// A row of the menu: the label in a column of 18, a space, the value.
pub open spec fn row_text(label: Seq<char>, value: Seq<char>) -> Seq<char> {
    padded(label, 18) + seq![' '] + value
}

/// The settings menu: the configuration being edited and the selected row.
#[derive(Debug, PartialEq, Eq)]
pub struct SettingsState {
    config: Config,
    selected: usize,
}

impl Clone for SettingsState {
    fn clone(&self) -> (r: Self)
        ensures
            r.spec_config()@ == self.spec_config()@,
            r.spec_selected() == self.spec_selected(),
    {
        proof {
            use_type_invariant(self);
        }
        SettingsState { config: crate::config::copy_config(&self.config), selected: self.selected }
    }
}

impl SettingsState {
    #[verifier::type_invariant]
    spec fn selected_in_range(self) -> bool {
        self.selected < SETTING_FIELD_COUNT
    }

    /// The configuration being edited.
    pub closed spec fn spec_config(self) -> Config {
        self.config
    }

    /// The selected row.
    pub closed spec fn spec_selected(self) -> usize {
        self.selected
    }

    pub fn new(config: Config) -> (r: Self)
        ensures
            r.spec_config() == config,
            r.spec_selected() == 0,
    {
        SettingsState { config, selected: 0 }
    }

    pub fn config(&self) -> (r: &Config)
        ensures
            *r == self.spec_config(),
    {
        &self.config
    }

    pub fn into_config(self) -> (r: Config)
        ensures
            r == self.spec_config(),
    {
        self.config
    }

    pub fn selected(&self) -> (r: usize)
        ensures
            r == self.spec_selected(),
            r < SETTING_FIELD_COUNT,
    {
        proof {
            use_type_invariant(self);
        }
        self.selected
    }

    /// Selects the row above, the last row from the first.
    pub fn move_up(&mut self)
        ensures
            final(self).spec_selected() == if old(self).spec_selected() == 0 {
                (SETTING_FIELD_COUNT - 1) as usize
            } else {
                (old(self).spec_selected() - 1) as usize
            },
            final(self).spec_config() == old(self).spec_config(),
    {
        proof {
            use_type_invariant(&*self);
        }
        self.selected = if self.selected == 0 {
            SETTING_FIELD_COUNT - 1
        } else {
            self.selected - 1
        };
    }

    /// Selects the row below, the first row from the last.
    pub fn move_down(&mut self)
        ensures
            final(self).spec_selected() == (old(self).spec_selected() + 1) % (
            SETTING_FIELD_COUNT as int),
            final(self).spec_config() == old(self).spec_config(),
    {
        proof {
            use_type_invariant(&*self);
        }
        self.selected = (self.selected + 1) % SETTING_FIELD_COUNT;
    }

    /// Changes the selected setting one step back.
    pub fn change_left(&mut self)
        ensures
            final(self).spec_config()@ == changed(
                old(self).spec_config()@,
                old(self).spec_selected() as int,
                -1,
            ),
            final(self).spec_selected() == old(self).spec_selected(),
    {
        self.change(-1);
    }

    /// Changes the selected setting one step forward.
    pub fn change_right(&mut self)
        ensures
            final(self).spec_config()@ == changed(
                old(self).spec_config()@,
                old(self).spec_selected() as int,
                1,
            ),
            final(self).spec_selected() == old(self).spec_selected(),
    {
        self.change(1);
    }

    /// One menu row per setting, showing its label and current value.
    pub fn palette_items(&self) -> (r: Vec<PaletteItem>)
        ensures
            r@.len() == SETTING_FIELD_COUNT,
            forall|row: int|
                0 <= row < SETTING_FIELD_COUNT ==> {
                    &&& (#[trigger] r@[row]).label@ == row_text(
                        row_label_text(row),
                        value_text(self.spec_config()@, row),
                    )
                    &&& r@[row].path is None
                    &&& r@[row].kind == PaletteItemKind::Menu
                    &&& r@[row].source@ == "menu"@
                },
    {
        let mut items: Vec<PaletteItem> = Vec::new();
        let mut row: usize = 0;
        while row < SETTING_FIELD_COUNT
            invariant
                row <= SETTING_FIELD_COUNT,
                items@.len() == row,
                forall|k: int|
                    0 <= k < row ==> {
                        &&& (#[trigger] items@[k]).label@ == row_text(
                            row_label_text(k),
                            value_text(self.config@, k),
                        )
                        &&& items@[k].path is None
                        &&& items@[k].kind == PaletteItemKind::Menu
                        &&& items@[k].source@ == "menu"@
                    },
            decreases SETTING_FIELD_COUNT - row,
        {
            let field = field_at_row(row);
            let value = self.value_for(field);
            let text = row_label(field.label(), value);
            items.push(PaletteItem::menu(text.as_str()));
            row += 1;
        }
        items
    }

    fn change(&mut self, step: isize)
        requires
            step == 1 || step == -1,
        ensures
            final(self).spec_config()@ == changed(
                old(self).spec_config()@,
                old(self).spec_selected() as int,
                step as int,
            ),
            final(self).spec_selected() == old(self).spec_selected(),
    {
        proof {
            use_type_invariant(&*self);
        }
        let ghost before = self.config@;
        match field_at_row(self.selected) {
            SettingField::Theme => {
                self.config.general.theme = cycle_theme(self.config.general.theme, step);
            },
            SettingField::MaxRecent => {
                let options: Vec<usize> = vec![25, 50, 100, 200, 500];
                assert(options@ =~= recent_options());
                self.config.general.max_recent = cycle_copy(
                    self.config.general.max_recent,
                    &options,
                    step,
                );
            },
            SettingField::StartFromGitRoot => {
                self.config.general.start_from_git_root = !self.config.general.start_from_git_root;
            },
            SettingField::Editor => {
                let options = editor_option_strings();
                self.config.open.editor = cycle_string(&self.config.open.editor, &options, step);
            },
            SettingField::GuiEditor => {
                let options = gui_editor_option_strings();
                self.config.open.gui_editor = cycle_string(
                    &self.config.open.gui_editor,
                    &options,
                    step,
                );
            },
            SettingField::FileOpener => {
                let options = opener_option_strings();
                self.config.open.file_opener = cycle_string(
                    &self.config.open.file_opener,
                    &options,
                    step,
                );
            },
            SettingField::PreferTerminalEditor => {
                self.config.open.prefer_terminal_editor = !self.config.open.prefer_terminal_editor;
            },
            SettingField::RecordAtflowOpens => {
                self.config.history.record_atflow_opens = !self.config.history.record_atflow_opens;
            },
            SettingField::RecordShellCd => {
                self.config.history.record_shell_cd = !self.config.history.record_shell_cd;
            },
            SettingField::SearchRoots => {
                let options = root_option_lists();
                self.config.search.roots = cycle_string_list(
                    &self.config.search.roots,
                    &options,
                    step,
                );
            },
            SettingField::IgnoreNames => {
                let options = ignore_option_lists();
                self.config.search.ignore = cycle_string_list(
                    &self.config.search.ignore,
                    &options,
                    step,
                );
            },
        }
        assert(self.config@ =~= changed(before, self.selected as int, step as int));
    }

    fn value_for(&self, field: SettingField) -> (r: String)
        ensures
            forall|row: int|
                0 <= row < 11 && field_at(row) == field ==> r@ == value_text(self.config@, row),
    {
        match field {
            SettingField::Theme => self.config.general.theme.as_str().to_owned(),
            SettingField::MaxRecent => decimal_string(self.config.general.max_recent),
            SettingField::StartFromGitRoot => bool_label(self.config.general.start_from_git_root),
            SettingField::Editor => self.config.open.editor.clone(),
            SettingField::GuiEditor => self.config.open.gui_editor.clone(),
            SettingField::FileOpener => self.config.open.file_opener.clone(),
            SettingField::PreferTerminalEditor => bool_label(
                self.config.open.prefer_terminal_editor,
            ),
            SettingField::RecordAtflowOpens => bool_label(self.config.history.record_atflow_opens),
            SettingField::RecordShellCd => bool_label(self.config.history.record_shell_cd),
            SettingField::SearchRoots => list_label(&self.config.search.roots),
            SettingField::IgnoreNames => list_label(&self.config.search.ignore),
        }
    }
}

fn row_label(label: &str, value: String) -> (r: String)
    ensures
        r@ == row_text(label@, value@),
{
    let mut chars = to_chars(label);
    let ghost start = chars@;
    while chars.len() < 18
        invariant
            start.len() <= chars@.len(),
            chars@ == start + Seq::new((chars@.len() - start.len()) as nat, |i: int| ' '),
            start.len() >= 18 ==> chars@.len() == start.len(),
            start.len() < 18 ==> chars@.len() <= 18,
        decreases 18 - chars@.len(),
    {
        chars.push(' ');
        assert(chars@ =~= start + Seq::new((chars@.len() - start.len()) as nat, |i: int| ' '));
    }
    proof {
        if start.len() >= 18 {
            assert(chars@ =~= start);
        }
        assert(chars@ =~= padded(start, 18));
    }
    chars.push(' ');
    let mut r = from_chars(chars.as_slice());
    assert(r@ =~= padded(start, 18) + seq![' ']);
    r.append(value.as_str());
    r
}

fn bool_label(value: bool) -> (r: String)
    ensures
        r@ == on_off(value),
{
    if value {
        "on".to_owned()
    } else {
        "off".to_owned()
    }
}

fn list_label(values: &Vec<String>) -> (r: String)
    ensures
        r@ == list_text(views(values@)),
{
    if values.len() == 0 {
        "<none>".to_owned()
    } else {
        join_strings(values.as_slice(), ", ")
    }
}

fn theme_index(theme: ThemeName) -> (r: usize)
    ensures
        r < 3,
        theme_options()[r as int] == theme,
        first_position(theme_options(), theme) == r,
{
    proof {
        let s = theme_options();
        assert(s.drop_first() =~= seq![ThemeName::Ink, ThemeName::Paper]);
        assert(s.drop_first().drop_first() =~= seq![ThemeName::Paper]);
    }
    match theme {
        ThemeName::Mist => 0,
        ThemeName::Ink => {
            proof {
                let s = theme_options();
                assert(first_position(s.drop_first(), theme) == 0);
            }
            1
        },
        ThemeName::Paper => {
            proof {
                let s = theme_options();
                assert(first_position(s.drop_first().drop_first(), theme) == 0);
                assert(first_position(s.drop_first(), theme) == 1);
            }
            2
        },
    }
}

fn cycle_theme(current: ThemeName, step: isize) -> (r: ThemeName)
    ensures
        r == cycled(current, theme_options(), step as int),
{
    let i = theme_index(current);
    let j = cycle_index(i, 3, step);
    if j == 0 {
        ThemeName::Mist
    } else if j == 1 {
        ThemeName::Ink
    } else {
        ThemeName::Paper
    }
}

fn cycle_copy(current: usize, base_options: &Vec<usize>, step: isize) -> (r: usize)
    requires
        base_options@.len() < usize::MAX,
    ensures
        r == cycled(current, base_options@, step as int),
{
    let mut i: usize = 0;
    while i < base_options.len()
        invariant
            i <= base_options@.len(),
            forall|k: int| 0 <= k < i ==> base_options@[k] != current,
        decreases base_options@.len() - i,
    {
        if base_options[i] == current {
            proof {
                lemma_position_found(base_options@, current, i as int);
            }
            let j = cycle_index(i, base_options.len(), step);
            return base_options[j];
        }
        i += 1;
    }
    assert(!base_options@.contains(current));
    let j = cycle_index(0, base_options.len() + 1, step);
    if j == 0 {
        current
    } else {
        base_options[j - 1]
    }
}

fn cycle_string(current: &String, base_options: &Vec<String>, step: isize) -> (r: String)
    requires
        base_options@.len() < usize::MAX,
    ensures
        r@ == cycled(current@, views(base_options@), step as int),
{
    let ghost base = views(base_options@);
    let mut i: usize = 0;
    while i < base_options.len()
        invariant
            i <= base_options@.len(),
            base == views(base_options@),
            forall|k: int| 0 <= k < i ==> base[k] != current@,
        decreases base_options@.len() - i,
    {
        if str_eq(base_options[i].as_str(), current.as_str()) {
            proof {
                lemma_position_found(base, current@, i as int);
            }
            let j = cycle_index(i, base_options.len(), step);
            return base_options[j].clone();
        }
        i += 1;
    }
    assert(!base.contains(current@));
    let j = cycle_index(0, base_options.len() + 1, step);
    if j == 0 {
        current.clone()
    } else {
        base_options[j - 1].clone()
    }
}

/// The texts of each list of strings.
pub open spec fn list_views(v: Seq<Vec<String>>) -> Seq<Seq<Seq<char>>> {
    v.map_values(|l: Vec<String>| views(l@))
}

fn cycle_string_list(current: &Vec<String>, base_options: &Vec<Vec<String>>, step: isize) -> (r:
    Vec<String>)
    requires
        base_options@.len() < usize::MAX,
    ensures
        views(r@) == cycled(views(current@), list_views(base_options@), step as int),
{
    let ghost base = list_views(base_options@);
    let mut i: usize = 0;
    while i < base_options.len()
        invariant
            i <= base_options@.len(),
            base == list_views(base_options@),
            forall|k: int| 0 <= k < i ==> base[k] != views(current@),
        decreases base_options@.len() - i,
    {
        if strings_eq(&base_options[i], current) {
            proof {
                lemma_position_found(base, views(current@), i as int);
            }
            let j = cycle_index(i, base_options.len(), step);
            return clone_strings(&base_options[j]);
        }
        i += 1;
    }
    assert(!base.contains(views(current@)));
    let j = cycle_index(0, base_options.len() + 1, step);
    if j == 0 {
        clone_strings(current)
    } else {
        clone_strings(&base_options[j - 1])
    }
}

fn editor_option_strings() -> (r: Vec<String>)
    ensures
        views(r@) == editor_options(),
{
    let r = vec![
        "nvim".to_owned(),
        "vim".to_owned(),
        "vi".to_owned(),
        "nano".to_owned(),
        "hx".to_owned(),
        "code".to_owned(),
    ];
    assert(views(r@) =~= editor_options());
    r
}

fn gui_editor_option_strings() -> (r: Vec<String>)
    ensures
        views(r@) == gui_editor_options(),
{
    let r = vec!["code".to_owned(), "zed".to_owned(), "cursor".to_owned(), "subl".to_owned()];
    assert(views(r@) =~= gui_editor_options());
    r
}

fn opener_option_strings() -> (r: Vec<String>)
    ensures
        views(r@) == opener_options(),
{
    let r = vec!["xdg-open".to_owned(), "open".to_owned()];
    assert(views(r@) =~= opener_options());
    r
}

fn root_option_lists() -> (r: Vec<Vec<String>>)
    ensures
        list_views(r@) == root_options(),
{
    let a = vec!["~/work".to_owned(), "~/code".to_owned(), "~/Documents".to_owned()];
    let b = vec!["~/work".to_owned()];
    let c = vec!["~".to_owned()];
    let d: Vec<String> = Vec::new();
    assert(views(a@) =~= seq!["~/work"@, "~/code"@, "~/Documents"@]);
    assert(views(b@) =~= seq!["~/work"@]);
    assert(views(c@) =~= seq!["~"@]);
    assert(views(d@) =~= Seq::<Seq<char>>::empty());
    let r = vec![a, b, c, d];
    assert(list_views(r@) =~= root_options());
    r
}

fn ignore_option_lists() -> (r: Vec<Vec<String>>)
    ensures
        list_views(r@) == ignore_options(),
{
    let a = crate::config::default_ignore_names();
    let b = vec![".git".to_owned(), "node_modules".to_owned(), "target".to_owned()];
    let c: Vec<String> = Vec::new();
    assert(views(b@) =~= seq![".git"@, "node_modules"@, "target"@]);
    assert(views(c@) =~= Seq::<Seq<char>>::empty());
    let r = vec![a, b, c];
    assert(list_views(r@) =~= ignore_options());
    r
}


proof fn lemma_first_position_bounds<T>(s: Seq<T>, x: T)
    requires
        s.contains(x),
    ensures
        0 <= first_position(s, x) < s.len(),
        s[first_position(s, x)] == x,
    decreases s.len(),
{
    if s[0] != x {
        let k = choose|k: int| 0 <= k < s.len() && s[k] == x;
        assert(s.drop_first()[k - 1] == x);
        lemma_first_position_bounds(s.drop_first(), x);
    }
}

proof fn lemma_first_position_unique<T>(s: Seq<T>, q: int)
    requires
        s.no_duplicates(),
        0 <= q < s.len(),
    ensures
        first_position(s, s[q]) == q,
{
    assert forall|k: int| 0 <= k < q implies s[k] != s[q] by {}
    lemma_position_found(s, s[q], q);
}

proof fn lemma_step_back_and_forth(p: int, n: int)
    requires
        0 <= p < n,
    ensures
        0 <= cycle_pos(p, n, 1) < n,
        0 <= cycle_pos(p, n, -1) < n,
        cycle_pos(cycle_pos(p, n, 1), n, -1) == p,
        cycle_pos(cycle_pos(p, n, -1), n, 1) == p,
{
    if p + 1 < n {
        lemma_small_mod((p + 1) as nat, n as nat);
    } else {
        lemma_fundamental_div_mod_converse(p + 1, n, 1, 0);
    }
    if p > 0 {
        lemma_small_mod((p - 1) as nat, n as nat);
    } else {
        lemma_fundamental_div_mod_converse(-1, n, -1, n - 1);
    }
    let up = cycle_pos(p, n, 1);
    let down = cycle_pos(p, n, -1);
    if up > 0 {
        lemma_small_mod((up - 1) as nat, n as nat);
    } else {
        lemma_fundamental_div_mod_converse(-1, n, -1, n - 1);
    }
    if down + 1 < n {
        lemma_small_mod((down + 1) as nat, n as nat);
    } else {
        lemma_fundamental_div_mod_converse(down + 1, n, 1, 0);
    }
}

proof fn lemma_cycle_back<T>(x: T, base: Seq<T>)
    requires
        base.contains(x),
        base.no_duplicates(),
    ensures
        cycled(cycled(x, base, 1), base, -1) == x,
        cycled(cycled(x, base, -1), base, 1) == x,
{
    let n = base.len() as int;
    let p = first_position(base, x);
    lemma_first_position_bounds(base, x);
    lemma_step_back_and_forth(p, n);
    let up = cycle_pos(p, n, 1);
    let down = cycle_pos(p, n, -1);
    lemma_first_position_unique(base, up);
    lemma_first_position_unique(base, down);
    assert(base.contains(base[up]));
    assert(base.contains(base[down]));
}

/// Whether the value of a row is one of the options the row cycles through
/// (always so for a switch).
pub open spec fn row_value_listed(c: ConfigView, row: int) -> bool {
    if row == 0 {
        theme_options().contains(c.theme)
    } else if row == 1 {
        recent_options().contains(c.max_recent)
    } else if row == 3 {
        editor_options().contains(c.editor)
    } else if row == 4 {
        gui_editor_options().contains(c.gui_editor)
    } else if row == 5 {
        opener_options().contains(c.file_opener)
    } else if row == 9 {
        root_options().contains(c.roots)
    } else if row == 10 {
        ignore_options().contains(c.ignore)
    } else {
        true
    }
}

proof fn lemma_options_distinct()
    ensures
        theme_options().no_duplicates(),
        recent_options().no_duplicates(),
        editor_options().no_duplicates(),
        gui_editor_options().no_duplicates(),
        opener_options().no_duplicates(),
        root_options().no_duplicates(),
        ignore_options().no_duplicates(),
{
    reveal_strlit("nvim");
    reveal_strlit("vim");
    reveal_strlit("vi");
    reveal_strlit("nano");
    reveal_strlit("hx");
    reveal_strlit("code");
    reveal_strlit("zed");
    reveal_strlit("cursor");
    reveal_strlit("subl");
    reveal_strlit("xdg-open");
    reveal_strlit("open");
    reveal_strlit("~/work");
    reveal_strlit("~");
    let e = editor_options();
    assert(e[0][1] != e[3][1]);
    assert(e[0][0] != e[5][0]);
    assert(e[3][0] != e[5][0]);
    assert(e[2][0] != e[4][0]);
    assert forall|a: int, b: int| 0 <= a < b < 6 implies e[a] != e[b] by {
        if a == 0 && b == 3 {
        } else if a == 0 && b == 5 {
        } else if a == 3 && b == 5 {
        } else if a == 2 && b == 4 {
        } else {
            assert(e[a].len() != e[b].len());
        }
    }
    let g = gui_editor_options();
    assert(g[0][0] != g[3][0]);
    assert forall|a: int, b: int| 0 <= a < b < 4 implies g[a] != g[b] by {
        if a == 0 && b == 3 {
        } else {
            assert(g[a].len() != g[b].len());
        }
    }
    let o = opener_options();
    assert(o[0].len() != o[1].len());
    let r = root_options();
    assert(r[1][0].len() != r[2][0].len());
    assert forall|a: int, b: int| 0 <= a < b < 4 implies r[a] != r[b] by {
        if a == 1 && b == 2 {
            assert(r[a][0] != r[b][0]);
        } else {
            assert(r[a].len() != r[b].len());
        }
    }
    let i = ignore_options();
    assert(i[0].len() == 6);
}

/// Right then Left (or Left then Right) on a row puts back the value it
/// held, as long as that value was one of the row's options: a value typed
/// into the config file by hand is left for the first option.
pub proof fn change_back_and_forth_restores(c: ConfigView, row: int)
    requires
        0 <= row < SETTING_FIELD_COUNT,
        row_value_listed(c, row),
    ensures
        changed(changed(c, row, 1), row, -1) == c,
        changed(changed(c, row, -1), row, 1) == c,
{
    lemma_options_distinct();
    if row == 0 {
        lemma_cycle_back(c.theme, theme_options());
    } else if row == 1 {
        lemma_cycle_back(c.max_recent, recent_options());
    } else if row == 3 {
        lemma_cycle_back(c.editor, editor_options());
    } else if row == 4 {
        lemma_cycle_back(c.gui_editor, gui_editor_options());
    } else if row == 5 {
        lemma_cycle_back(c.file_opener, opener_options());
    } else if row == 9 {
        lemma_cycle_back(c.roots, root_options());
    } else if row == 10 {
        lemma_cycle_back(c.ignore, ignore_options());
    }
}

/// Down then Up (or Up then Down) comes back to the row that was selected;
/// both wrap between the first and the last row.
pub proof fn moves_are_inverse(row: int)
    requires
        0 <= row < SETTING_FIELD_COUNT,
    ensures
        ({
            let down = (row + 1) % (SETTING_FIELD_COUNT as int);
            0 <= down < SETTING_FIELD_COUNT && (if down == 0 {
                SETTING_FIELD_COUNT - 1
            } else {
                down - 1
            }) == row
        }),
        ({
            let up = if row == 0 {
                SETTING_FIELD_COUNT - 1
            } else {
                row - 1
            };
            (up + 1) % (SETTING_FIELD_COUNT as int) == row
        }),
{
}

/// Each switch row flips its own setting and nothing else, whichever way it
/// is changed: `Git root start` flips the Git root start, `Terminal editor`
/// the preference for a terminal editor, `Record @ opens` the recording of
/// opens, `Record shell cd` the recording of `cd`; each row shows its own
/// switch as `on` or `off`, and a second change puts it back.
pub proof fn switch_rows_flip_their_own_setting(c: ConfigView, step: int, other: int)
    ensures
        row_label_text(2) == "Git root start"@,
        changed(c, 2, step) == (ConfigView { start_from_git_root: !c.start_from_git_root, ..c }),
        value_text(c, 2) == (if c.start_from_git_root {
            "on"@
        } else {
            "off"@
        }),
        row_label_text(6) == "Terminal editor"@,
        changed(c, 6, step) == (ConfigView {
            prefer_terminal_editor: !c.prefer_terminal_editor,
            ..c
        }),
        value_text(c, 6) == (if c.prefer_terminal_editor {
            "on"@
        } else {
            "off"@
        }),
        row_label_text(7) == "Record @ opens"@,
        changed(c, 7, step) == (ConfigView { record_atflow_opens: !c.record_atflow_opens, ..c }),
        value_text(c, 7) == (if c.record_atflow_opens {
            "on"@
        } else {
            "off"@
        }),
        row_label_text(8) == "Record shell cd"@,
        changed(c, 8, step) == (ConfigView { record_shell_cd: !c.record_shell_cd, ..c }),
        value_text(c, 8) == (if c.record_shell_cd {
            "on"@
        } else {
            "off"@
        }),
        other == 2 || other == 6 || other == 7 || other == 8 ==> changed(
            changed(c, other, step),
            other,
            -step,
        ) == c,
{
}

/// A choice row changes only its own setting: `Theme` the theme, `Max
/// recent` the number of recent paths, `Editor`, `GUI editor` and `File
/// opener` those commands, `Search roots` the roots and `Ignore names` the
/// ignored names; every other setting keeps its value, and each row shows
/// its own setting.
pub proof fn choice_rows_change_only_their_own_setting(c: ConfigView, step: int)
    ensures
        row_label_text(0) == "Theme"@,
        changed(c, 0, step) == (ConfigView { theme: changed(c, 0, step).theme, ..c }),
        value_text(c, 0) == crate::ui::theme::theme_text(c.theme),
        row_label_text(1) == "Max recent"@,
        changed(c, 1, step) == (ConfigView { max_recent: changed(c, 1, step).max_recent, ..c }),
        value_text(c, 1) == decimal(c.max_recent as nat),
        row_label_text(3) == "Editor"@,
        changed(c, 3, step) == (ConfigView { editor: changed(c, 3, step).editor, ..c }),
        value_text(c, 3) == c.editor,
        row_label_text(4) == "GUI editor"@,
        changed(c, 4, step) == (ConfigView { gui_editor: changed(c, 4, step).gui_editor, ..c }),
        value_text(c, 4) == c.gui_editor,
        row_label_text(5) == "File opener"@,
        changed(c, 5, step) == (ConfigView { file_opener: changed(c, 5, step).file_opener, ..c }),
        value_text(c, 5) == c.file_opener,
        row_label_text(9) == "Search roots"@,
        changed(c, 9, step) == (ConfigView { roots: changed(c, 9, step).roots, ..c }),
        row_label_text(10) == "Ignore names"@,
        changed(c, 10, step) == (ConfigView { ignore: changed(c, 10, step).ignore, ..c }),
{
}

} // verus!
