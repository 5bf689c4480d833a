//! Shell integration: quoting for `eval`, and the functions and hook a
//! user's shell sources.

use vstd::prelude::*;
use vstd::string::*;

use crate::text::{from_chars, to_chars};

verus! {

/// How one character stands inside single quotes: a quote closes the
/// quoted text, adds an escaped quote and opens the quotes again.
pub open spec fn quote_char(c: char) -> Seq<char> {
    if c == '\'' {
        seq!['\'', '\\', '\'', '\'']
    } else {
        seq![c]
    }
}

/// The quoted form of each character of `s`, in order.
pub open spec fn quote_body(s: Seq<char>) -> Seq<char>
    decreases s.len(),
{
    if s.len() == 0 {
        Seq::empty()
    } else {
        quote_body(s.drop_last()) + quote_char(s.last())
    }
}

/// `s` as one single-quoted shell word (`''` for the empty text).
pub open spec fn shell_quoted(s: Seq<char>) -> Seq<char> {
    seq!['\''] + quote_body(s) + seq!['\'']
}

/// The text a POSIX shell makes of a word, read outside quotes: a single
/// quote opens a quoted part, a backslash takes the next character as it is.
pub open spec fn shell_word(t: Seq<char>) -> Seq<char>
    decreases t.len(), 1int,
{
    if t.len() == 0 {
        Seq::empty()
    } else if t[0] == '\'' {
        shell_word_quoted(t.drop_first())
    } else if t[0] == '\\' && t.len() >= 2 {
        seq![t[1]] + shell_word(t.subrange(2, t.len() as int))
    } else {
        seq![t[0]] + shell_word(t.drop_first())
    }
}

/// The text a shell makes of a word inside single quotes, where every
/// character but the closing quote stands for itself.
pub open spec fn shell_word_quoted(t: Seq<char>) -> Seq<char>
    decreases t.len(), 0int,
{
    if t.len() == 0 {
        Seq::empty()
    } else if t[0] == '\'' {
        shell_word(t.drop_first())
    } else {
        seq![t[0]] + shell_word_quoted(t.drop_first())
    }
}

proof fn lemma_quote_body_front(s: Seq<char>)
    requires
        s.len() > 0,
    ensures
        quote_body(s) == quote_char(s[0]) + quote_body(s.drop_first()),
    decreases s.len(),
{
    if s.len() == 1 {
        assert(s.drop_last() =~= Seq::<char>::empty());
        assert(s.drop_first() =~= Seq::<char>::empty());
        assert(quote_body(s) =~= quote_char(s[0]));
    } else {
        let d = s.drop_last();
        lemma_quote_body_front(d);
        assert(d.drop_first() =~= s.drop_first().drop_last());
        assert(s.drop_first().last() == s.last());
        assert(quote_body(s.drop_first()) == quote_body(d.drop_first()) + quote_char(s.last()));
        assert(quote_body(s) =~= quote_char(s[0]) + quote_body(s.drop_first()));
    }
}

proof fn lemma_quoted_body_reads_back(s: Seq<char>, rest: Seq<char>)
    ensures
        shell_word_quoted(quote_body(s) + seq!['\''] + rest) == s + shell_word(rest),
    decreases s.len(),
{
    if s.len() == 0 {
        assert(quote_body(s) + seq!['\''] + rest =~= seq!['\''] + rest);
        assert((seq!['\''] + rest).drop_first() =~= rest);
        assert(s + shell_word(rest) =~= shell_word(rest));
    } else {
        lemma_quote_body_front(s);
        let tail = quote_body(s.drop_first()) + seq!['\''] + rest;
        lemma_quoted_body_reads_back(s.drop_first(), rest);
        let c = s[0];
        let t = quote_body(s) + seq!['\''] + rest;
        if c == '\'' {
            assert(t =~= seq!['\'', '\\', '\'', '\''] + tail);
            assert(t.drop_first() =~= seq!['\\', '\'', '\''] + tail);
            let u = seq!['\\', '\'', '\''] + tail;
            assert(u.subrange(2, u.len() as int) =~= seq!['\''] + tail);
            assert((seq!['\''] + tail).drop_first() =~= tail);
            assert(shell_word(u) == seq!['\''] + shell_word(seq!['\''] + tail));
            assert(s =~= seq![c] + s.drop_first());
        } else {
            assert(t =~= seq![c] + tail);
            assert(t.drop_first() =~= tail);
            assert(s =~= seq![c] + s.drop_first());
        }
        assert(shell_word_quoted(t) =~= s + shell_word(rest));
    }
}

/// A quoted word reads back, in the shell, as the text it quotes.
pub proof fn shell_quote_reads_back(s: Seq<char>)
    ensures
        shell_word(shell_quoted(s)) == s,
{
    let q = shell_quoted(s);
    assert(q.drop_first() =~= quote_body(s) + seq!['\''] + Seq::<char>::empty());
    lemma_quoted_body_reads_back(s, Seq::empty());
    assert(s + Seq::<char>::empty() =~= s);
}

/// Quotes `input` as a single shell word.
pub fn shell_quote(input: &str) -> (r: String)
    ensures
        r@ == shell_quoted(input@),
{
    let chars = to_chars(input);
    let mut out: Vec<char> = Vec::new();
    out.push('\'');
    let mut i: usize = 0;
    while i < chars.len()
        invariant
            i <= chars@.len(),
            chars@ == input@,
            out@ == seq!['\''] + quote_body(chars@.subrange(0, i as int)),
        decreases chars@.len() - i,
    {
        let c = chars[i];
        if c == '\'' {
            out.push('\'');
            out.push('\\');
            out.push('\'');
            out.push('\'');
        } else {
            out.push(c);
        }
        proof {
            let p = chars@.subrange(0, i + 1);
            assert(p.drop_last() =~= chars@.subrange(0, i as int));
            assert(p.last() == c);
        }
        i += 1;
        assert(out@ =~= seq!['\''] + quote_body(chars@.subrange(0, i as int)));
    }
    out.push('\'');
    assert(chars@.subrange(0, chars@.len() as int) =~= chars@);
    assert(out@ =~= shell_quoted(input@));
    from_chars(out.as_slice())
}

/// The command that makes a shell change to `path`.
pub open spec fn cd_text(path: Seq<char>) -> Seq<char> {
    "cd -- "@ + shell_quoted(path)
}

/// The `cd` command for `path`, quoted so that no path is read as an option
/// or split by the shell.
pub fn cd_command(path: &str) -> (r: String)
    ensures
        r@ == cd_text(path@),
{
    let quoted = shell_quote(path);
    let r = "cd -- ".to_owned().concat(quoted.as_str());
    r
}

/// The shell functions behind `@`, `@recent`, `@flow`, `@search` and `@setting`.
pub const FUNCTIONS_BLOCK: &'static str = r#"@() {
  local cmd="${1:-}"
  local out
  case "$cmd" in
    recent) shift; out="$(command at recent --shell "$@")" || return; eval "$out" ;;
    flow) shift; out="$(command at flow --shell "$@")" || return; eval "$out" ;;
    search) shift; out="$(command at search --shell "$@")" || return; eval "$out" ;;
    setting) shift; command at setting "$@" ;;
    "") out="$(command at menu --shell)" || return; eval "$out" ;;
    *) out="$(command at menu --shell "$@")" || return; eval "$out" ;;
  esac
}
@recent() { local out; out="$(command at recent --shell "$@")" || return; eval "$out"; }
@flow() { local out; out="$(command at flow --shell "$@")" || return; eval "$out"; }
@search() { local out; out="$(command at search --shell "$@")" || return; eval "$out"; }
@setting() { command at setting "$@"; }"#;

/// The optional hook that records each `cd` of the shell in the history.
pub const CD_HOOK_BLOCK: &'static str = r#"_atflow_record_cd() {
  command at recent-record "$PWD" >/dev/null 2>&1 || true
}

if [ -n "${ZSH_VERSION:-}" ]; then
  autoload -Uz add-zsh-hook
  add-zsh-hook chpwd _atflow_record_cd
elif [ -n "${BASH_VERSION:-}" ]; then
  _atflow_original_cd() {
    builtin cd "$@" && _atflow_record_cd
  }
  alias cd='_atflow_original_cd'
fi"#;

pub fn functions_block() -> (r: &'static str)
    ensures
        r@ == FUNCTIONS_BLOCK@,
{
    FUNCTIONS_BLOCK
}

pub fn cd_hook_block() -> (r: &'static str)
    ensures
        r@ == CD_HOOK_BLOCK@,
{
    CD_HOOK_BLOCK
}

} // verus!
