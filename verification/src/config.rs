//! The settings a user keeps in `config.toml`, their defaults, and where
//! AtFlow keeps its files.

use vstd::prelude::*;

use crate::paths::{joined_path, path_join};
use crate::text::{clone_strings, opt_view, views};
use crate::ui::theme::ThemeName;

verus! {

/// The whole configuration.
#[derive(Debug, Clone, PartialEq, Eq)]
pub struct Config {
    pub general: GeneralConfig,
    pub open: OpenConfig,
    pub search: SearchConfig,
    pub history: HistoryConfig,
}

#[derive(Debug, Clone, PartialEq, Eq)]
pub struct GeneralConfig {
    pub theme: ThemeName,
    pub max_recent: usize,
    pub start_from_git_root: bool,
}

#[derive(Debug, Clone, PartialEq, Eq)]
pub struct OpenConfig {
    pub editor: String,
    pub gui_editor: String,
    pub file_opener: String,
    pub prefer_terminal_editor: bool,
}

#[derive(Debug, Clone, PartialEq, Eq)]
pub struct SearchConfig {
    pub root_mode: SearchRootMode,
    pub roots: Vec<String>,
    pub ignore: Vec<String>,
}

/// Where a search starts: in the directory AtFlow was called from, or in
/// the configured roots.
#[derive(Debug, Clone, Copy, PartialEq, Eq, Structural)]
pub enum SearchRootMode {
    Invocation,
    Configured,
}

#[derive(Debug, Clone, PartialEq, Eq)]
pub struct HistoryConfig {
    pub record_atflow_opens: bool,
    pub record_shell_cd: bool,
}

impl Default for SearchRootMode {
    fn default() -> (r: Self)
        ensures
            r == SearchRootMode::Invocation,
    {
        SearchRootMode::Invocation
    }
}

/// The search roots of a fresh configuration.
pub open spec fn default_roots() -> Seq<Seq<char>> {
    seq!["~/work"@, "~/code"@, "~/Documents"@]
}

/// The names a fresh configuration leaves out of searches.
pub open spec fn default_ignore() -> Seq<Seq<char>> {
    seq![".git"@, "node_modules"@, "__pycache__"@, ".venv"@, "target"@, "dist"@]
}

/// A configuration as plain values: what each setting holds.
pub ghost struct ConfigView {
    pub theme: ThemeName,
    pub max_recent: usize,
    pub start_from_git_root: bool,
    pub editor: Seq<char>,
    pub gui_editor: Seq<char>,
    pub file_opener: Seq<char>,
    pub prefer_terminal_editor: bool,
    pub root_mode: SearchRootMode,
    pub roots: Seq<Seq<char>>,
    pub ignore: Seq<Seq<char>>,
    pub record_atflow_opens: bool,
    pub record_shell_cd: bool,
}

impl View for Config {
    type V = ConfigView;

    open spec fn view(&self) -> ConfigView {
        ConfigView {
            theme: self.general.theme,
            max_recent: self.general.max_recent,
            start_from_git_root: self.general.start_from_git_root,
            editor: self.open.editor@,
            gui_editor: self.open.gui_editor@,
            file_opener: self.open.file_opener@,
            prefer_terminal_editor: self.open.prefer_terminal_editor,
            root_mode: self.search.root_mode,
            roots: views(self.search.roots@),
            ignore: views(self.search.ignore@),
            record_atflow_opens: self.history.record_atflow_opens,
            record_shell_cd: self.history.record_shell_cd,
        }
    }
}

/// What a fresh configuration holds.
pub open spec fn default_config() -> ConfigView {
    ConfigView {
        theme: ThemeName::Mist,
        max_recent: 100,
        start_from_git_root: true,
        editor: "nvim"@,
        gui_editor: "code"@,
        file_opener: "xdg-open"@,
        prefer_terminal_editor: true,
        root_mode: SearchRootMode::Invocation,
        roots: default_roots(),
        ignore: default_ignore(),
        record_atflow_opens: true,
        record_shell_cd: false,
    }
}

pub fn default_search_roots() -> (r: Vec<String>)
    ensures
        views(r@) == default_roots(),
{
    let r = vec!["~/work".to_owned(), "~/code".to_owned(), "~/Documents".to_owned()];
    assert(views(r@) =~= default_roots());
    r
}

pub fn default_ignore_names() -> (r: Vec<String>)
    ensures
        views(r@) == default_ignore(),
{
    let r = vec![
        ".git".to_owned(),
        "node_modules".to_owned(),
        "__pycache__".to_owned(),
        ".venv".to_owned(),
        "target".to_owned(),
        "dist".to_owned(),
    ];
    assert(views(r@) =~= default_ignore());
    r
}

impl Default for Config {
    fn default() -> (r: Self)
        ensures
            r@ == default_config(),
    {
        Config {
            general: GeneralConfig {
                theme: ThemeName::Mist,
                max_recent: 100,
                start_from_git_root: true,
            },
            open: OpenConfig {
                editor: "nvim".to_owned(),
                gui_editor: "code".to_owned(),
                file_opener: "xdg-open".to_owned(),
                prefer_terminal_editor: true,
            },
            search: SearchConfig {
                root_mode: SearchRootMode::Invocation,
                roots: default_search_roots(),
                ignore: default_ignore_names(),
            },
            history: HistoryConfig { record_atflow_opens: true, record_shell_cd: false },
        }
    }
}


/// Where AtFlow keeps its file `name` under the directory `dir`:
/// `<dir>/at/<name>`.
pub open spec fn at_file_under(dir: Seq<char>, name: Seq<char>) -> Seq<char> {
    joined_path(joined_path(dir, "at"@), name)
}

/// AtFlow's file `name` under `dir`, or under the current directory `.`
/// when there is no such directory.
pub fn at_file_path(dir: Option<String>, name: &str) -> (r: String)
    ensures
        r@ == at_file_under(
            match opt_view(dir) {
                Some(d) => d,
                None => "."@,
            },
            name@,
        ),
{
    let base = match dir {
        Some(d) => d,
        None => ".".to_owned(),
    };
    let at_dir = path_join(base.as_str(), "at");
    path_join(at_dir.as_str(), name)
}

/// Calls `dirs::config_dir`: the user's configuration directory, when the
/// system names one. Nothing is stated of the result: it depends on the
/// environment.
#[verifier::external_body]
fn config_dir() -> (r: Option<String>) {
    dirs::config_dir().map(|p| p.to_string_lossy().into_owned())
}

/// The configuration file: `at/config.toml` under the user's configuration
/// directory (the current directory when the system names none).
pub fn default_config_path() -> (r: String)
    ensures
        exists|dir: Seq<char>| r@ == at_file_under(dir, "config.toml"@),
{
    at_file_path(config_dir(), "config.toml")
}

/// A copy of `c`, field by field.
pub(crate) fn copy_config(c: &Config) -> (r: Config)
    ensures
        r@ == c@,
{
    Config {
        general: GeneralConfig {
            theme: c.general.theme,
            max_recent: c.general.max_recent,
            start_from_git_root: c.general.start_from_git_root,
        },
        open: OpenConfig {
            editor: c.open.editor.clone(),
            gui_editor: c.open.gui_editor.clone(),
            file_opener: c.open.file_opener.clone(),
            prefer_terminal_editor: c.open.prefer_terminal_editor,
        },
        search: SearchConfig {
            root_mode: c.search.root_mode,
            roots: clone_strings(&c.search.roots),
            ignore: clone_strings(&c.search.ignore),
        },
        history: HistoryConfig {
            record_atflow_opens: c.history.record_atflow_opens,
            record_shell_cd: c.history.record_shell_cd,
        },
    }
}

} // verus!
