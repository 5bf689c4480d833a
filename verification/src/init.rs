//! The setup wizard of `at init`: its answers, how a typed answer is read,
//! and the configuration the answers make.

use vstd::prelude::*;
use vstd::string::*;

use crate::config::{default_config, Config, ConfigView};
use crate::text::{
    clone_strings, decimal, decimal_string, from_chars, join_strings, joined, lowercase, opt_view,
    str_eq, to_chars, to_lowercase, trim, trim_chars, trim_str, views,
};
use crate::ui::theme::ThemeName;

verus! {

/// What the user chose in the wizard.
#[derive(Debug, Clone, PartialEq, Eq)]
pub struct InitAnswers {
    pub install_shell_functions: bool,
    pub enable_cd_hook: bool,
    pub editor: String,
    pub search_roots: Vec<String>,
    pub theme: ThemeName,
    pub start_from_git_root: bool,
}

/// The editor offered first: `$EDITOR` when it holds more than white space
/// (kept as it is), else `nvim`.
pub open spec fn default_editor_answer(editor_env: Option<Seq<char>>) -> Seq<char> {
    match editor_env {
        Some(e) if trim(e).len() > 0 => e,
        _ => "nvim"@,
    }
}

impl InitAnswers {
    /// The answers offered before the user types anything, given the value
    /// of `$EDITOR` if it is set.
    pub fn defaults(editor_env: Option<String>) -> (r: Self)
        ensures
            r.install_shell_functions,
            !r.enable_cd_hook,
            r.editor@ == default_editor_answer(opt_view(editor_env)),
            views(r.search_roots@) == crate::config::default_roots(),
            r.theme == ThemeName::Mist,
            r.start_from_git_root,
    {
        let editor = match editor_env {
            Some(e) => {
                let trimmed = trim_str(e.as_str());
                if trimmed.as_str().is_empty() {
                    "nvim".to_owned()
                } else {
                    e
                }
            },
            None => "nvim".to_owned(),
        };
        InitAnswers {
            install_shell_functions: true,
            enable_cd_hook: false,
            editor,
            search_roots: crate::config::default_search_roots(),
            theme: ThemeName::Mist,
            start_from_git_root: true,
        }
    }
}

/// The configuration the wizard writes: the defaults, with the editor,
/// search roots, theme, Git root start and `cd` recording as answered.
pub open spec fn config_from_answers_view(a: InitAnswers) -> ConfigView {
    ConfigView {
        editor: a.editor@,
        roots: views(a.search_roots@),
        theme: a.theme,
        start_from_git_root: a.start_from_git_root,
        record_shell_cd: a.enable_cd_hook,
        ..default_config()
    }
}

pub fn config_from_answers(answers: &InitAnswers) -> (r: Config)
    ensures
        r@ == config_from_answers_view(*answers),
{
    let mut config = Config::default();
    config.open.editor = answers.editor.clone();
    config.search.roots = clone_strings(&answers.search_roots);
    config.general.theme = answers.theme;
    config.general.start_from_git_root = answers.start_from_git_root;
    config.history.record_shell_cd = answers.enable_cd_hook;
    config
}

/// A yes/no answer: empty keeps the default, `y`/`yes` and `n`/`no` in any
/// case say yes and no, anything else keeps the default.
pub open spec fn bool_answer_of(answer: Seq<char>, default: bool) -> bool {
    let a = lowercase(answer);
    if a == "y"@ || a == "yes"@ {
        true
    } else if a == "n"@ || a == "no"@ {
        false
    } else {
        default
    }
}

pub fn bool_answer(answer: &str, default: bool) -> (r: bool)
    ensures
        r == bool_answer_of(answer@, default),
{
    let lowered = to_lowercase(answer);
    lowered_bool_answer(lowered.as_str(), default)
}

/// A yes/no answer already in lower case.
pub fn lowered_bool_answer(a: &str, default: bool) -> (r: bool)
    ensures
        r == if a@ == "y"@ || a@ == "yes"@ {
            true
        } else if a@ == "n"@ || a@ == "no"@ {
            false
        } else {
            default
        },
{
    if str_eq(a, "y") || str_eq(a, "yes") {
        true
    } else if str_eq(a, "n") || str_eq(a, "no") {
        false
    } else {
        default
    }
}

/// A text answer: the default when nothing was typed.
pub fn string_answer(answer: &str, default: &str) -> (r: String)
    ensures
        r@ == if answer@.len() == 0 {
            default@
        } else {
            answer@
        },
{
    if answer.is_empty() {
        default.to_owned()
    } else {
        answer.to_owned()
    }
}

/// The pieces of `s` between commas, as `str::split(',')` gives them.
pub open spec fn split_commas(s: Seq<char>) -> Seq<Seq<char>>
    decreases s.len(),
{
    if s.len() == 0 {
        seq![Seq::empty()]
    } else {
        let p = split_commas(s.drop_last());
        if s.last() == ',' {
            p.push(Seq::empty())
        } else {
            p.update(p.len() - 1, p.last().push(s.last()))
        }
    }
}

/// The pieces, each trimmed, without those left empty.
pub open spec fn kept_pieces(pieces: Seq<Seq<char>>) -> Seq<Seq<char>>
    decreases pieces.len(),
{
    if pieces.len() == 0 {
        Seq::empty()
    } else {
        let rest = kept_pieces(pieces.drop_last());
        let t = trim(pieces.last());
        if t.len() > 0 {
            rest.push(t)
        } else {
            rest
        }
    }
}

proof fn lemma_split_commas_len(s: Seq<char>)
    ensures
        split_commas(s).len() > 0,
    decreases s.len(),
{
    if s.len() > 0 {
        lemma_split_commas_len(s.drop_last());
    }
}

/// The search roots answered: the default when nothing was typed, else the
/// comma-separated pieces, trimmed, without the empty ones.
pub open spec fn roots_answer_of(answer: Seq<char>, default: Seq<Seq<char>>) -> Seq<Seq<char>> {
    if answer.len() == 0 {
        default
    } else {
        kept_pieces(split_commas(answer))
    }
}

pub fn roots_answer(answer: &str, default: &Vec<String>) -> (r: Vec<String>)
    ensures
        views(r@) == roots_answer_of(answer@, views(default@)),
{
    if answer.is_empty() {
        return clone_strings(default);
    }
    let chars = to_chars(answer);
    let mut roots: Vec<String> = Vec::new();
    let mut current: Vec<char> = Vec::new();
    let ghost mut done: Seq<Seq<char>> = Seq::empty();
    let mut i: usize = 0;
    assert(chars@.subrange(0, 0) =~= Seq::<char>::empty());
    assert(split_commas(Seq::empty()) =~= done.push(current@));
    while i < chars.len()
        invariant
            i <= chars@.len(),
            chars@ == answer@,
            split_commas(chars@.subrange(0, i as int)) == done.push(current@),
            views(roots@) == kept_pieces(done),
        decreases chars@.len() - i,
    {
        let c = chars[i];
        proof {
            let pre = chars@.subrange(0, i as int);
            let next = chars@.subrange(0, i + 1);
            assert(next.drop_last() =~= pre);
            assert(next.last() == c);
            lemma_split_commas_len(pre);
        }
        if c == ',' {
            let piece = trim_chars(&current);
            proof {
                let d2 = done.push(current@);
                assert(d2.drop_last() =~= done);
                assert(d2.last() == current@);
            }
            if piece.len() > 0 {
                roots.push(from_chars(piece.as_slice()));
            }
            proof {
                done = done.push(current@);
            }
            current = Vec::new();
            assert(views(roots@) =~= kept_pieces(done));
            assert(split_commas(chars@.subrange(0, i + 1)) =~= done.push(current@));
        } else {
            let ghost old_current = current@;
            current.push(c);
            assert(split_commas(chars@.subrange(0, i + 1)) =~= done.push(current@));
        }
        i += 1;
    }
    let piece = trim_chars(&current);
    proof {
        let d2 = done.push(current@);
        assert(d2.drop_last() =~= done);
        assert(d2.last() == current@);
        assert(chars@.subrange(0, chars@.len() as int) =~= answer@);
    }
    if piece.len() > 0 {
        roots.push(from_chars(piece.as_slice()));
    }
    assert(views(roots@) =~= kept_pieces(done.push(current@)));
    roots
}

/// The number a theme has in the wizard's menu.
pub open spec fn theme_number_of(theme: ThemeName) -> usize {
    match theme {
        ThemeName::Mist => 1,
        ThemeName::Ink => 2,
        ThemeName::Paper => 3,
    }
}

pub fn theme_number(theme: ThemeName) -> (r: usize)
    ensures
        r == theme_number_of(theme),
{
    match theme {
        ThemeName::Mist => 1,
        ThemeName::Ink => 2,
        ThemeName::Paper => 3,
    }
}

/// A theme answer: `1`, `2` or `3` pick Mist, Ink or Paper; anything else
/// keeps the default.
pub open spec fn theme_answer_of(answer: Seq<char>, default: ThemeName) -> ThemeName {
    if answer == "1"@ {
        ThemeName::Mist
    } else if answer == "2"@ {
        ThemeName::Ink
    } else if answer == "3"@ {
        ThemeName::Paper
    } else {
        default
    }
}

pub fn theme_answer(answer: &str, default: ThemeName) -> (r: ThemeName)
    ensures
        r == theme_answer_of(answer@, default),
{
    if str_eq(answer, "1") {
        ThemeName::Mist
    } else if str_eq(answer, "2") {
        ThemeName::Ink
    } else if str_eq(answer, "3") {
        ThemeName::Paper
    } else {
        default
    }
}


/// The question for a yes/no answer: the label, then the two answers with
/// the one an empty line gives in capitals.
pub open spec fn bool_prompt_text(label: Seq<char>, default: bool) -> Seq<char> {
    label + " ["@ + (if default {
        "Y/n"@
    } else {
        "y/N"@
    }) + "]: "@
}

pub fn bool_prompt(label: &str, default: bool) -> (r: String)
    ensures
        r@ == bool_prompt_text(label@, default),
{
    let mut r = label.to_owned();
    r.append(" [");
    r.append(if default {
        "Y/n"
    } else {
        "y/N"
    });
    r.append("]: ");
    r
}

/// The question for a text answer: the label and, in brackets, the answer
/// an empty line gives.
pub open spec fn string_prompt_text(label: Seq<char>, default: Seq<char>) -> Seq<char> {
    label + " ["@ + default + "]: "@
}

pub fn string_prompt(label: &str, default: &str) -> (r: String)
    ensures
        r@ == string_prompt_text(label@, default@),
{
    let mut r = label.to_owned();
    r.append(" [");
    r.append(default);
    r.append("]: ");
    r
}

/// The question for the search roots, offering the default roots joined by
/// commas.
pub open spec fn roots_prompt_text(default: Seq<Seq<char>>) -> Seq<char> {
    "Search roots ["@ + joined(default, ", "@) + "]: "@
}

pub fn roots_prompt(default: &Vec<String>) -> (r: String)
    ensures
        r@ == roots_prompt_text(views(default@)),
{
    let joined_roots = join_strings(default.as_slice(), ", ");
    let mut r = "Search roots [".to_owned();
    r.append(joined_roots.as_str());
    r.append("]: ");
    r
}

/// The question for the theme: the menu of themes and the number of the
/// default one.
pub open spec fn theme_prompt_text(default: ThemeName) -> Seq<char> {
    "Theme 1) Mist 2) Ink 3) Paper ["@ + decimal(theme_number_of(default) as nat) + "]: "@
}

pub fn theme_prompt(default: ThemeName) -> (r: String)
    ensures
        r@ == theme_prompt_text(default),
{
    let number = decimal_string(theme_number(default));
    let mut r = "Theme 1) Mist 2) Ink 3) Paper [".to_owned();
    r.append(number.as_str());
    r.append("]: ");
    r
}


/// An empty line keeps the default, whatever the question (lowering the
/// empty line leaves it empty, as `to_lowercase` states).
pub proof fn empty_answers_keep_defaults(default: bool, roots: Seq<Seq<char>>, theme: ThemeName)
    requires
        lowercase(Seq::empty()).len() == 0,
    ensures
        bool_answer_of(Seq::empty(), default) == default,
        roots_answer_of(Seq::empty(), roots) == roots,
        theme_answer_of(Seq::empty(), theme) == theme,
{
    reveal_strlit("y");
    reveal_strlit("yes");
    reveal_strlit("n");
    reveal_strlit("no");
    reveal_strlit("1");
    reveal_strlit("2");
    reveal_strlit("3");
    assert("y"@.len() == 1 && "yes"@.len() == 3 && "n"@.len() == 1 && "no"@.len() == 2);
    assert("1"@.len() == 1 && "2"@.len() == 1 && "3"@.len() == 1);
}

/// Taking every answer the wizard offers writes the default configuration,
/// with the offered editor; without `$EDITOR` that is the default
/// configuration itself.
pub proof fn offered_answers_give_default_config(a: InitAnswers, editor_env: Option<Seq<char>>)
    requires
        !a.enable_cd_hook,
        a.editor@ == default_editor_answer(editor_env),
        views(a.search_roots@) == crate::config::default_roots(),
        a.theme == ThemeName::Mist,
        a.start_from_git_root,
    ensures
        config_from_answers_view(a) == (ConfigView {
            editor: default_editor_answer(editor_env),
            ..default_config()
        }),
        editor_env is None ==> config_from_answers_view(a) == default_config(),
{
}

} // verus!
