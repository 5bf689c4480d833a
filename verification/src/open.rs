//! What opening a selected path does: `cd` into directories, an editor for
//! text and code, the system opener for anything else.

use vstd::prelude::*;

use crate::config::Config;
use crate::paths::{extension_of, path_extension};
use crate::text::{ascii_lowercase, opt_view, str_eq, to_ascii_lowercase, trim, trim_str};

verus! {

/// The action that opens a path.
#[derive(Debug, Clone, PartialEq, Eq)]
pub enum OpenAction {
    Cd(String),
    Editor { command: String, path: String },
    System { command: String, path: String },
}

/// How the user asked to open a file.
#[derive(Debug, Clone, Copy, PartialEq, Eq, Structural)]
pub enum OpenMode {
    Default,
    Editor,
    System,
}

/// The editor to run, and the preferred editor it stands in for when that
/// one was not found.
#[derive(Debug, Clone, PartialEq, Eq)]
pub struct EditorCommand {
    pub command: String,
    pub fallback_from: Option<String>,
}

/// The extensions of text and code files, in lower case.
pub open spec fn text_or_code_extension(e: Seq<char>) -> bool {
    ||| e == "rs"@
    ||| e == "py"@
    ||| e == "js"@
    ||| e == "ts"@
    ||| e == "tsx"@
    ||| e == "jsx"@
    ||| e == "md"@
    ||| e == "txt"@
    ||| e == "toml"@
    ||| e == "json"@
    ||| e == "yaml"@
    ||| e == "yml"@
    ||| e == "sh"@
    ||| e == "zsh"@
    ||| e == "bash"@
    ||| e == "html"@
    ||| e == "css"@
}

/// Whether a file with the given extension (none: no extension) is text or
/// code: the extension, lowered, is one of the text and code extensions.
pub open spec fn text_or_code_extension_of(extension: Option<Seq<char>>) -> bool {
    text_or_code_extension(
        ascii_lowercase(
            match extension {
                Some(e) => e,
                None => Seq::empty(),
            },
        ),
    )
}

/// Whether a path names a text or code file, by its extension.
pub open spec fn is_text_or_code_path(path: Seq<char>) -> bool {
    text_or_code_extension_of(extension_of(path))
}

fn is_listed_extension(e: &str) -> (r: bool)
    ensures
        r == text_or_code_extension(e@),
{
    str_eq(e, "rs") || str_eq(e, "py") || str_eq(e, "js") || str_eq(e, "ts") || str_eq(e, "tsx")
        || str_eq(e, "jsx") || str_eq(e, "md") || str_eq(e, "txt") || str_eq(e, "toml") || str_eq(
        e,
        "json",
    ) || str_eq(e, "yaml") || str_eq(e, "yml") || str_eq(e, "sh") || str_eq(e, "zsh") || str_eq(
        e,
        "bash",
    ) || str_eq(e, "html") || str_eq(e, "css")
}

pub fn is_text_or_code(path: &str) -> (r: bool)
    ensures
        r == is_text_or_code_path(path@),
{
    is_text_or_code_extension(path_extension(path))
}

/// Whether a file with this extension opens in the editor by default.
pub fn is_text_or_code_extension(extension: Option<String>) -> (r: bool)
    ensures
        r == text_or_code_extension_of(opt_view(extension)),
{
    let extension = match extension {
        Some(e) => e,
        None => String::new(),
    };
    let lowered = to_ascii_lowercase(extension.as_str());
    is_listed_extension(lowered.as_str())
}

/// Whether a file opened in `mode` goes to the editor: always in editor
/// mode, never in system mode, and by default when it is text or code.
pub open spec fn opens_in_editor(path: Seq<char>, mode: OpenMode) -> bool {
    match mode {
        OpenMode::Editor => true,
        OpenMode::System => false,
        OpenMode::Default => is_text_or_code_path(path),
    }
}

/// The action for a path: `cd` for a directory whatever the mode; else the
/// configured editor or the configured opener, as `opens_in_editor` decides.
pub open spec fn is_open_action(
    r: OpenAction,
    path: Seq<char>,
    is_dir: bool,
    mode: OpenMode,
    config: Config,
) -> bool {
    match r {
        OpenAction::Cd(p) => is_dir && p@ == path,
        OpenAction::Editor { command, path: p } => {
            &&& !is_dir
            &&& opens_in_editor(path, mode)
            &&& command@ == config.open.editor@
            &&& p@ == path
        },
        OpenAction::System { command, path: p } => {
            &&& !is_dir
            &&& !opens_in_editor(path, mode)
            &&& command@ == config.open.file_opener@
            &&& p@ == path
        },
    }
}

pub fn resolve_open_action(path: &str, is_dir: bool, mode: OpenMode, config: &Config) -> (r:
    OpenAction)
    ensures
        is_open_action(r, path@, is_dir, mode, *config),
{
    if is_dir {
        return OpenAction::Cd(path.to_owned());
    }
    match mode {
        OpenMode::Editor => OpenAction::Editor {
            command: config.open.editor.clone(),
            path: path.to_owned(),
        },
        OpenMode::System => OpenAction::System {
            command: config.open.file_opener.clone(),
            path: path.to_owned(),
        },
        OpenMode::Default => {
            if is_text_or_code(path) {
                OpenAction::Editor { command: config.open.editor.clone(), path: path.to_owned() }
            } else {
                OpenAction::System {
                    command: config.open.file_opener.clone(),
                    path: path.to_owned(),
                }
            }
        },
    }
}

/// The editors tried, in order, when no editor is given or found.
pub open spec fn editor_candidates() -> Seq<Seq<char>> {
    seq!["nvim"@, "vim"@, "vi"@, "nano"@]
}

/// The first candidate editor that `found` marks as present on the search
/// path (`found[i]` stands for the `i`-th candidate).
pub open spec fn first_found(found: Seq<bool>) -> Option<Seq<char>> {
    first_found_from(found, 0)
}

/// The first candidate editor from the `i`-th on that `found` marks.
pub open spec fn first_found_from(found: Seq<bool>, i: int) -> Option<Seq<char>>
    decreases 4 - i,
{
    if i < 0 || i >= 4 || i >= found.len() {
        None
    } else if found[i] {
        Some(editor_candidates()[i])
    } else {
        first_found_from(found, i + 1)
    }
}

fn editor_candidate(i: usize) -> (r: String)
    requires
        i < 4,
    ensures
        r@ == editor_candidates()[i as int],
{
    if i == 0 {
        "nvim".to_owned()
    } else if i == 1 {
        "vim".to_owned()
    } else if i == 2 {
        "vi".to_owned()
    } else {
        "nano".to_owned()
    }
}

/// The number of candidate editors.
pub fn editor_candidate_count() -> (r: usize)
    ensures
        r == editor_candidates().len(),
{
    4
}

/// The candidate editors, in the order they are tried.
pub fn editor_candidate_names() -> (r: Vec<String>)
    ensures
        crate::text::views(r@) == editor_candidates(),
{
    let r = vec![editor_candidate(0), editor_candidate(1), editor_candidate(2), editor_candidate(3)];
    assert(crate::text::views(r@) =~= editor_candidates());
    r
}

/// The first candidate editor marked as found.
pub fn first_available_editor(found: &Vec<bool>) -> (r: Option<String>)
    ensures
        opt_view(r) == first_found(found@),
{
    let mut i: usize = 0;
    while i < 4 && i < found.len()
        invariant
            i <= 4,
            first_found(found@) == first_found_from(found@, i as int),
        decreases 4 - i,
    {
        if found[i] {
            return Some(editor_candidate(i));
        }
        i += 1;
    }
    None
}

/// The editor to run for a preferred command: the preferred one, trimmed,
/// when it is given and `preferred_found` (it was found on the search path);
/// else the first candidate found, else the preferred one anyway, else `vi`.
/// A preferred editor that was not used is reported in `fallback_from`.
pub open spec fn is_editor_choice(
    r: EditorCommand,
    preferred: Seq<char>,
    preferred_found: bool,
    first_available: Option<Seq<char>>,
) -> bool {
    let t = trim(preferred);
    if t.len() > 0 && preferred_found {
        r.command@ == t && r.fallback_from is None
    } else {
        &&& r.command@ == match first_available {
            Some(f) => f,
            None => if t.len() == 0 {
                "vi"@
            } else {
                t
            },
        }
        &&& opt_view(r.fallback_from) == if t.len() == 0 {
            None
        } else {
            Some(t)
        }
    }
}

pub fn resolve_editor_choice(
    preferred: &str,
    preferred_found: bool,
    first_available: Option<String>,
) -> (r: EditorCommand)
    ensures
        is_editor_choice(r, preferred@, preferred_found, opt_view(first_available)),
{
    let trimmed = trim_str(preferred);
    let given = !trimmed.as_str().is_empty();
    if given && preferred_found {
        return EditorCommand { command: trimmed, fallback_from: None };
    }
    let command = match first_available {
        Some(f) => f,
        None => if given {
            trimmed.clone()
        } else {
            "vi".to_owned()
        },
    };
    let fallback_from = if given {
        Some(trimmed)
    } else {
        None
    };
    EditorCommand { command, fallback_from }
}

/// The editor used when none is configured: `$EDITOR` when it holds more
/// than white space (as it is, untrimmed), else the first candidate found,
/// else `vi`.
pub open spec fn default_editor_text(
    editor_env: Option<Seq<char>>,
    first_available: Option<Seq<char>>,
) -> Seq<char> {
    match editor_env {
        Some(e) if trim(e).len() > 0 => e,
        _ => match first_available {
            Some(f) => f,
            None => "vi"@,
        },
    }
}

pub fn default_editor_choice(editor_env: Option<String>, first_available: Option<String>) -> (r:
    String)
    ensures
        r@ == default_editor_text(opt_view(editor_env), opt_view(first_available)),
{
    if let Some(editor) = editor_env {
        let trimmed = trim_str(editor.as_str());
        if !trimmed.as_str().is_empty() {
            return editor;
        }
    }
    match first_available {
        Some(f) => f,
        None => "vi".to_owned(),
    }
}

/// Exactly these extensions, in lower case, are text or code: rs, py, js,
/// ts, tsx, jsx, md, txt, toml, json, yaml, yml, sh, zsh, bash, html, css.
/// A file's extension is lowered (ASCII letters only) before it is looked
/// up, and a file without an extension is not text or code; a text or code
/// file opens in the configured editor by default, anything else in the
/// configured opener.
pub proof fn text_and_code_extensions(e: Seq<char>, path: Seq<char>, config: Config)
    ensures
        text_or_code_extension(e) <==> (e == "rs"@ || e == "py"@ || e == "js"@ || e == "ts"@ || e
            == "tsx"@ || e == "jsx"@ || e == "md"@ || e == "txt"@ || e == "toml"@ || e
            == "json"@ || e == "yaml"@ || e == "yml"@ || e == "sh"@ || e == "zsh"@ || e
            == "bash"@ || e == "html"@ || e == "css"@),
        text_or_code_extension_of(Some(e)) <==> text_or_code_extension(ascii_lowercase(e)),
        !text_or_code_extension_of(None),
        is_text_or_code_path(path) <==> (extension_of(path) matches Some(x)
            && text_or_code_extension(ascii_lowercase(x))),
        opens_in_editor(path, OpenMode::Default) <==> is_text_or_code_path(path),
        forall|r: OpenAction|
            is_open_action(r, path, false, OpenMode::Default, config) ==> (match r {
                OpenAction::Editor { command, .. } => is_text_or_code_path(path) && command@
                    == config.open.editor@,
                OpenAction::System { command, .. } => !is_text_or_code_path(path) && command@
                    == config.open.file_opener@,
                OpenAction::Cd(_) => false,
            }),
{
    assert(ascii_lowercase(Seq::<char>::empty()) =~= Seq::<char>::empty());
    reveal_strlit("rs");
    reveal_strlit("py");
    reveal_strlit("js");
    reveal_strlit("ts");
    reveal_strlit("tsx");
    reveal_strlit("jsx");
    reveal_strlit("md");
    reveal_strlit("txt");
    reveal_strlit("toml");
    reveal_strlit("json");
    reveal_strlit("yaml");
    reveal_strlit("yml");
    reveal_strlit("sh");
    reveal_strlit("zsh");
    reveal_strlit("bash");
    reveal_strlit("html");
    reveal_strlit("css");
}

} // verus!
