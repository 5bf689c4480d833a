//! The decisions of the `at` commands: where messages go, how openers are
//! attached, what a palette outcome opens, and where searches start.

use vstd::prelude::*;
use vstd::string::*;

use crate::config::{Config, SearchRootMode};
use crate::open::OpenMode;
use crate::paths::{joined_path, path_canonical, path_join};
use crate::text::{opt_view, str_eq, to_chars, views};
use crate::history::{
    count_saturated, recorded, HistoryDb, HistoryEntry, HistoryError, HistorySource, PathKind,
};
use crate::search::{SearchFilter, SearchRequest, SearchResult};
use crate::text::{clone_strings, trim, trim_str};
use crate::ui::palette::{PaletteItem, PaletteItemKind, PaletteState};
use crate::ui::runtime::UiOutcome;

verus! {

/// Where the settings command prints its messages.
#[derive(Debug, Clone, Copy, PartialEq, Eq, Structural)]
pub enum InfoStream {
    Stdout,
    Stderr,
}

/// In shell mode standard output is read back by the shell function, so
/// messages go to standard error.
pub fn setting_stream(shell: bool) -> (r: InfoStream)
    ensures
        r == if shell {
            InfoStream::Stderr
        } else {
            InfoStream::Stdout
        },
{
    if shell {
        InfoStream::Stderr
    } else {
        InfoStream::Stdout
    }
}

/// How an editor or opener gets its terminal.
#[derive(Debug, Clone, Copy, PartialEq, Eq, Structural)]
pub enum OpenerStdio {
    Inherit,
    Tty,
}

/// In shell mode standard output is captured, so openers get the terminal.
pub fn opener_stdio(shell: bool) -> (r: OpenerStdio)
    ensures
        r == if shell {
            OpenerStdio::Tty
        } else {
            OpenerStdio::Inherit
        },
{
    if shell {
        OpenerStdio::Tty
    } else {
        OpenerStdio::Inherit
    }
}

/// The path a palette outcome opens, whether it is a directory, and how.
#[derive(Debug, Clone, PartialEq, Eq)]
pub struct SelectedOpenTarget {
    pub path: String,
    pub is_dir: bool,
    pub mode: OpenMode,
}

/// The row and the open mode an outcome names; none for a cancel.
pub open spec fn outcome_row(outcome: UiOutcome) -> Option<(usize, OpenMode)> {
    match outcome {
        UiOutcome::Selected(i) => Some((i, OpenMode::Default)),
        UiOutcome::Editor(i) => Some((i, OpenMode::Editor)),
        UiOutcome::System(i) => Some((i, OpenMode::System)),
        UiOutcome::Cancelled => None,
    }
}

/// What an outcome opens: the path of the row it names, opened in the mode
/// it names; nothing for a cancel, a row past the end or a row without a path.
pub open spec fn is_open_target(
    r: Option<SelectedOpenTarget>,
    outcome: UiOutcome,
    state: PaletteState,
) -> bool {
    match outcome_row(outcome) {
        Some((i, mode)) => if i < state.items@.len() && state.items@[i as int].path is Some {
            r matches Some(t) && t.path@ == state.items@[i as int].path->0@ && t.is_dir == (
            state.items@[i as int].kind == PaletteItemKind::Dir) && t.mode == mode
        } else {
            r is None
        },
        None => r is None,
    }
}

pub fn selected_open_target(outcome: &UiOutcome, state: &PaletteState) -> (r: Option<
    SelectedOpenTarget,
>)
    ensures
        is_open_target(r, *outcome, *state),
{
    let (index, mode) = match outcome {
        UiOutcome::Selected(i) => (*i, OpenMode::Default),
        UiOutcome::Editor(i) => (*i, OpenMode::Editor),
        UiOutcome::System(i) => (*i, OpenMode::System),
        UiOutcome::Cancelled => return None,
    };
    if index >= state.items.len() {
        return None;
    }
    let item = &state.items[index];
    let path = match &item.path {
        Some(p) => p.clone(),
        None => return None,
    };
    let is_dir = match item.kind {
        PaletteItemKind::Dir => true,
        _ => false,
    };
    Some(SelectedOpenTarget { path, is_dir, mode })
}

/// A configured root with `~` standing for the home directory: `~` alone is
/// the home directory, `~/rest` is `rest` under it; without a home
/// directory `~` stays as it is. Anything else is taken as it is.
pub open spec fn home_expanded(value: Seq<char>, home: Option<Seq<char>>) -> Seq<char> {
    if value == "~"@ {
        match home {
            Some(h) => h,
            None => value,
        }
    } else if value.len() >= 2 && value[0] == '~' && value[1] == '/' {
        joined_path(
            match home {
                Some(h) => h,
                None => "~"@,
            },
            value.subrange(2, value.len() as int),
        )
    } else {
        value
    }
}

pub fn expand_home_with(value: &str, home: Option<String>) -> (r: String)
    ensures
        r@ == home_expanded(value@, opt_view(home)),
{
    if str_eq(value, "~") {
        return match home {
            Some(h) => h,
            None => value.to_owned(),
        };
    }
    let chars = to_chars(value);
    if chars.len() >= 2 && chars[0] == '~' && chars[1] == '/' {
        let rest = value.substring_char(2, chars.len());
        let base = match home {
            Some(h) => h,
            None => "~".to_owned(),
        };
        return path_join(base.as_str(), rest);
    }
    value.to_owned()
}

/// Calls `dirs::home_dir`: the user's home directory, when the system
/// names one. Nothing is stated of the result: it depends on the
/// environment.
#[verifier::external_body]
fn home_dir() -> (r: Option<String>) {
    dirs::home_dir().map(|p| p.to_string_lossy().into_owned())
}

/// Whether a configured root names the home directory: `~` or `~/...`.
pub open spec fn names_home(value: Seq<char>) -> bool {
    value == "~"@ || (value.len() >= 2 && value[0] == '~' && value[1] == '/')
}

/// A configured root with `~` expanded to the home directory the system
/// names now (see `home_expanded`); a root that does not name the home
/// directory is taken as it is.
pub fn expand_home(value: &str) -> (r: String)
    ensures
        exists|home: Option<Seq<char>>| r@ == home_expanded(value@, home),
        !names_home(value@) ==> r@ == value@,
{
    let home = home_dir();
    let r = expand_home_with(value, home);
    proof {
        reveal_strlit("~");
    }
    r
}

/// Where Flow's search looks: the directory AtFlow was called from, or the
/// configured roots (with `~` expanded), falling back to the directory
/// when none is configured.
pub open spec fn search_roots_of(
    c: Config,
    current_dir: Seq<char>,
    home: Option<Seq<char>>,
) -> Seq<Seq<char>> {
    match c.search.root_mode {
        SearchRootMode::Invocation => seq![current_dir],
        SearchRootMode::Configured => if c.search.roots@.len() == 0 {
            seq![current_dir]
        } else {
            views(c.search.roots@).map_values(|root: Seq<char>| home_expanded(root, home))
        },
    }
}

pub fn flow_search_roots_with(config: &Config, current_dir: String, home: Option<String>) -> (r:
    Vec<String>)
    ensures
        views(r@) == search_roots_of(*config, current_dir@, opt_view(home)),
{
    match config.search.root_mode {
        SearchRootMode::Invocation => {
            let r = vec![current_dir];
            assert(views(r@) =~= seq![current_dir@]);
            r
        },
        SearchRootMode::Configured => {
            if config.search.roots.len() == 0 {
                let r = vec![current_dir];
                assert(views(r@) =~= seq![current_dir@]);
                return r;
            }
            let mut roots: Vec<String> = Vec::new();
            let mut i: usize = 0;
            while i < config.search.roots.len()
                invariant
                    i <= config.search.roots@.len(),
                    roots@.len() == i,
                    forall|k: int|
                        0 <= k < i ==> (#[trigger] roots@[k])@ == home_expanded(
                            config.search.roots@[k]@,
                            opt_view(home),
                        ),
                decreases config.search.roots@.len() - i,
            {
                let h = match &home {
                    Some(h) => Some(h.clone()),
                    None => None,
                };
                roots.push(expand_home_with(config.search.roots[i].as_str(), h));
                i += 1;
            }
            assert(views(roots@) =~= views(config.search.roots@).map_values(
                |root: Seq<char>| home_expanded(root, opt_view(home)),
            ));
            roots
        },
    }
}


/// Where Flow's search looks (see `search_roots_of`), with `~` standing for
/// the home directory the system names now.
pub fn flow_search_roots_from(config: &Config, current_dir: String) -> (r: Vec<String>)
    ensures
        exists|home: Option<Seq<char>>| views(r@) == search_roots_of(*config, current_dir@, home),
        config.search.root_mode == SearchRootMode::Invocation ==> views(r@) == seq![current_dir@],
{
    let home = home_dir();
    flow_search_roots_with(config, current_dir, home)
}

/// The most results a Flow search shows.
pub const SEARCH_LIMIT: usize = 100;

/// The search Flow runs for a typed query: the query trimmed (none when
/// nothing is left), the kinds the filter keeps, the given roots and
/// ignored names, at most `SEARCH_LIMIT` results.
pub fn search_request_for(
    roots: &Vec<String>,
    ignore_names: &Vec<String>,
    query_text: &str,
    filter: SearchFilter,
) -> (r: SearchRequest)
    ensures
        views(r.roots@) == views(roots@),
        views(r.ignore_names@) == views(ignore_names@),
        opt_view(r.query) == if trim(query_text@).len() == 0 {
            None
        } else {
            Some(trim(query_text@))
        },
        r.filter == filter,
        r.limit == SEARCH_LIMIT,
{
    let trimmed = trim_str(query_text);
    let query = if trimmed.as_str().is_empty() {
        None
    } else {
        Some(trimmed)
    };
    SearchRequest {
        roots: clone_strings(roots),
        query,
        filter,
        ignore_names: clone_strings(ignore_names),
        limit: SEARCH_LIMIT,
    }
}

/// The palette row of a search result: a directory or file row for its
/// path, with its root as the source.
pub fn result_item(result: SearchResult) -> (r: PaletteItem)
    ensures
        r.path matches Some(p) && p@ == result.path@,
        r.label@ == result.path@,
        r.kind == if result.is_dir {
            PaletteItemKind::Dir
        } else {
            PaletteItemKind::File
        },
        r.source@ == result.source@,
{
    if result.is_dir {
        PaletteItem::dir(result.path, result.source.as_str())
    } else {
        PaletteItem::file(result.path, result.source.as_str())
    }
}

/// The palette row of a history entry, with the entry's source as the row's.
pub fn history_item(entry: HistoryEntry) -> (r: PaletteItem)
    ensures
        r.path matches Some(p) && p@ == entry.path@,
        r.label@ == entry.path@,
        r.kind == match entry.kind {
            PathKind::Dir => PaletteItemKind::Dir,
            PathKind::File => PaletteItemKind::File,
        },
        r.source@ == crate::history::source_text(entry.source),
{
    match entry.kind {
        PathKind::Dir => PaletteItem::dir(entry.path, entry.source.as_str()),
        PathKind::File => PaletteItem::file(entry.path, entry.source.as_str()),
    }
}


/// Records an open made from AtFlow, when the configuration asks for it;
/// otherwise leaves the history as it is.
pub fn record_atflow_open_at(
    db: &mut HistoryDb,
    config: &Config,
    path: &str,
    kind: PathKind,
    timestamp: i64,
) -> (r: Result<(), HistoryError>)
    ensures
        !config.history.record_atflow_opens ==> r is Ok && final(db)@ == old(db)@,
        config.history.record_atflow_opens ==> {
            &&& (r is Err <==> count_saturated(old(db)@, path@))
            &&& r is Ok ==> final(db)@ == recorded(
                old(db)@,
                path@,
                kind,
                HistorySource::Atflow,
                timestamp as int,
            )
            &&& r is Err ==> final(db)@ == old(db)@
        },
{
    if !config.history.record_atflow_opens {
        return Ok(());
    }
    db.record_path_at(path, kind, HistorySource::Atflow, timestamp)
}

/// Records a directory the shell changed into, when the configuration asks
/// for it; otherwise leaves the history as it is.
pub fn record_shell_cd_at(
    db: &mut HistoryDb,
    config: &Config,
    path: &str,
    timestamp: i64,
) -> (r: Result<(), HistoryError>)
    ensures
        !config.history.record_shell_cd ==> r is Ok && final(db)@ == old(db)@,
        config.history.record_shell_cd ==> {
            &&& (r is Err <==> count_saturated(old(db)@, path@))
            &&& r is Ok ==> final(db)@ == recorded(
                old(db)@,
                path@,
                PathKind::Dir,
                HistorySource::ShellCdHook,
                timestamp as int,
            )
            &&& r is Err ==> final(db)@ == old(db)@
        },
{
    if !config.history.record_shell_cd {
        return Ok(());
    }
    db.record_path_at(path, PathKind::Dir, HistorySource::ShellCdHook, timestamp)
}


/// Whether the `i`-th key occurs among the keys before it.
pub open spec fn seen_before(keys: Seq<Seq<char>>, i: int) -> bool {
    exists|j: int| 0 <= j < i && keys[j] == keys[i]
}

/// The results whose key (`keys[i]` is the key of `results[i]`) has not
/// come before, in their order.
pub open spec fn first_of_each_key(results: Seq<SearchResult>, keys: Seq<Seq<char>>) -> Seq<
    SearchResult,
>
    decreases results.len(),
{
    if results.len() == 0 {
        Seq::empty()
    } else {
        let n = results.len() - 1;
        let rest = first_of_each_key(results.drop_last(), keys);
        if seen_before(keys, n) {
            rest
        } else {
            rest.push(results[n])
        }
    }
}

fn copy_result(r: &SearchResult) -> (c: SearchResult)
    ensures
        c == *r,
{
    SearchResult { path: r.path.clone(), is_dir: r.is_dir, source: r.source.clone() }
}

/// Keeps each result whose key has not come before (`keys[i]` is the key of
/// `results[i]`), in order.
pub fn keep_first_of_each_key(results: &Vec<SearchResult>, keys: &Vec<String>) -> (r: Vec<
    SearchResult,
>)
    requires
        keys@.len() == results@.len(),
    ensures
        r@ == first_of_each_key(results@, views(keys@)),
{
    let ghost ks = views(keys@);
    let mut kept: Vec<SearchResult> = Vec::new();
    let mut i: usize = 0;
    while i < results.len()
        invariant
            i <= results@.len(),
            keys@.len() == results@.len(),
            ks == views(keys@),
            kept@ == first_of_each_key(results@.subrange(0, i as int), ks),
        decreases results@.len() - i,
    {
        let mut seen = false;
        let mut j: usize = 0;
        while j < i
            invariant
                j <= i,
                i < results@.len(),
                keys@.len() == results@.len(),
                ks == views(keys@),
                seen == exists|k: int| 0 <= k < j && ks[k] == ks[i as int],
            decreases i - j,
        {
            assert(ks[j as int] == keys@[j as int]@ && ks[i as int] == keys@[i as int]@);
            if str_eq(keys[j].as_str(), keys[i].as_str()) {
                seen = true;
            }
            proof {
                if !(ks[j as int] == ks[i as int]) {
                    assert((exists|k: int| 0 <= k < j + 1 && ks[k] == ks[i as int]) == (exists|k: int|
                        0 <= k < j && ks[k] == ks[i as int]));
                }
            }
            j += 1;
        }
        proof {
            let pre = results@.subrange(0, i as int);
            let next = results@.subrange(0, i + 1);
            assert(next.drop_last() =~= pre);
            assert(next[i as int] == results@[i as int]);
            assert(seen == seen_before(ks, i as int));
        }
        if !seen {
            kept.push(copy_result(&results[i]));
        }
        i += 1;
    }
    assert(results@.subrange(0, results@.len() as int) =~= results@);
    kept
}

/// The paths of the results, as text.
pub open spec fn result_paths(s: Seq<SearchResult>) -> Seq<Seq<char>> {
    s.map_values(|r: SearchResult| r.path@)
}

/// No two results have the same path text.
pub open spec fn paths_differ(s: Seq<SearchResult>) -> bool {
    forall|j: int, k: int| 0 <= j < k < s.len() ==> s[j].path@ != s[k].path@
}

/// What is kept is some of what was given, and no more of it.
proof fn lemma_kept_are_given(s: Seq<SearchResult>, keys: Seq<Seq<char>>)
    ensures
        first_of_each_key(s, keys).len() <= s.len(),
        forall|j: int|
            0 <= j < first_of_each_key(s, keys).len() ==> exists|i: int|
                0 <= i < s.len() && #[trigger] first_of_each_key(s, keys)[j] == s[i],
    decreases s.len(),
{
    if s.len() > 0 {
        let n = s.len() - 1;
        let rest = first_of_each_key(s.drop_last(), keys);
        lemma_kept_are_given(s.drop_last(), keys);
        let kept = first_of_each_key(s, keys);
        assert forall|j: int| 0 <= j < kept.len() implies exists|i: int|
            0 <= i < s.len() && #[trigger] kept[j] == s[i] by {
            if j < rest.len() {
                assert(kept[j] == rest[j]);
                let i = choose|i: int| 0 <= i < s.drop_last().len() && rest[j] == s.drop_last()[i];
                assert(kept[j] == s[i]);
            } else {
                assert(kept[j] == s[n]);
            }
        }
    }
}

/// Keyed by their path texts, the results kept all have different paths.
proof fn lemma_path_keys_keep_paths_apart(s: Seq<SearchResult>, keys: Seq<Seq<char>>)
    requires
        forall|i: int| 0 <= i < s.len() ==> keys[i] == #[trigger] s[i].path@,
    ensures
        paths_differ(first_of_each_key(s, keys)),
    decreases s.len(),
{
    if s.len() > 0 {
        let n = s.len() - 1;
        let t = s.drop_last();
        let rest = first_of_each_key(t, keys);
        assert forall|i: int| 0 <= i < t.len() implies keys[i] == #[trigger] t[i].path@ by {
            assert(t[i] == s[i]);
        }
        lemma_path_keys_keep_paths_apart(t, keys);
        lemma_kept_are_given(t, keys);
        if !seen_before(keys, n) {
            let kept = first_of_each_key(s, keys);
            assert forall|j: int, k: int| 0 <= j < k < kept.len() implies kept[j].path@
                != kept[k].path@ by {
                if k == kept.len() - 1 {
                    assert(kept[k] == s[n]);
                    assert(kept[j] == rest[j]);
                    let i = choose|i: int| 0 <= i < t.len() && rest[j] == t[i];
                    assert(t[i] == s[i]);
                    assert(keys[i] == s[i].path@);
                    assert(keys[n] == s[n].path@);
                    if keys[i] == keys[n] {
                        assert(seen_before(keys, n));
                    }
                } else {
                    assert(kept[j] == rest[j] && kept[k] == rest[k]);
                }
            }
        }
    }
}

/// Results with different paths stay so, whatever keys pick among them.
proof fn lemma_kept_paths_differ(s: Seq<SearchResult>, keys: Seq<Seq<char>>)
    requires
        paths_differ(s),
    ensures
        paths_differ(first_of_each_key(s, keys)),
    decreases s.len(),
{
    if s.len() > 0 {
        let n = s.len() - 1;
        let t = s.drop_last();
        let rest = first_of_each_key(t, keys);
        assert(paths_differ(t)) by {
            assert forall|j: int, k: int| 0 <= j < k < t.len() implies t[j].path@ != t[k].path@ by {
                assert(t[j] == s[j] && t[k] == s[k]);
            }
        }
        lemma_kept_paths_differ(t, keys);
        lemma_kept_are_given(t, keys);
        if !seen_before(keys, n) {
            let kept = first_of_each_key(s, keys);
            assert forall|j: int, k: int| 0 <= j < k < kept.len() implies kept[j].path@
                != kept[k].path@ by {
                if k == kept.len() - 1 {
                    assert(kept[k] == s[n]);
                    assert(kept[j] == rest[j]);
                    let i = choose|i: int| 0 <= i < t.len() && rest[j] == t[i];
                    assert(t[i] == s[i]);
                } else {
                    assert(kept[j] == rest[j] && kept[k] == rest[k]);
                }
            }
        }
    }
}

/// Keys for results as the disk resolves their paths: each is the
/// result's path as it is (a path that cannot be resolved), or a resolved,
/// absolute path.
pub open spec fn resolution_keys(s: Seq<SearchResult>, keys: Seq<Seq<char>>) -> bool {
    &&& keys.len() == s.len()
    &&& forall|i: int|
        0 <= i < s.len() ==> #[trigger] keys[i] == s[i].path@ || (keys[i].len() > 0 && keys[i][0]
            == '/')
}

/// A result is dropped only when an earlier result has the same key: a
/// result whose key no earlier result has is kept.
pub proof fn a_result_is_kept_unless_an_earlier_key_matches(
    s: Seq<SearchResult>,
    keys: Seq<Seq<char>>,
    j: int,
)
    requires
        0 <= j < s.len(),
        forall|i: int| 0 <= i < j ==> keys[i] != keys[j],
    ensures
        first_of_each_key(s, keys).contains(s[j]),
    decreases s.len(),
{
    let n = s.len() - 1;
    let rest = first_of_each_key(s.drop_last(), keys);
    let kept = first_of_each_key(s, keys);
    if j == n {
        assert(!seen_before(keys, n));
        assert(kept == rest.push(s[n]));
        assert(kept[rest.len() as int] == s[j]);
    } else {
        a_result_is_kept_unless_an_earlier_key_matches(s.drop_last(), keys, j);
        assert(s.drop_last()[j] == s[j]);
        let k = choose|k: int| 0 <= k < rest.len() && rest[k] == s[j];
        assert(kept[k] == rest[k]);
    }
}

/// Results whose keys all differ are all kept, in their order.
pub proof fn results_with_different_keys_are_all_kept(s: Seq<SearchResult>, keys: Seq<Seq<char>>)
    requires
        forall|i: int, j: int| 0 <= i < j < s.len() ==> keys[i] != keys[j],
    ensures
        first_of_each_key(s, keys) == s,
    decreases s.len(),
{
    if s.len() > 0 {
        let n = s.len() - 1;
        results_with_different_keys_are_all_kept(s.drop_last(), keys);
        assert(!seen_before(keys, n));
        assert(s.drop_last().push(s[n]) =~= s);
    }
}

/// The results with each path once: a result is dropped when an earlier one
/// has the same path text, or names the same file as the disk resolves
/// their paths now (a path that cannot be resolved stands for itself). What
/// holds of every outcome: no two results kept have the same path text,
/// each is one of the results, and they are those of some keying of the
/// results that differ in path text.
pub fn unique_results(results: &Vec<SearchResult>) -> (r: Vec<SearchResult>)
    ensures
        paths_differ(r@),
        forall|j: int| 0 <= j < r@.len() ==> results@.contains(#[trigger] r@[j]),
        exists|keys: Seq<Seq<char>>|
            resolution_keys(first_of_each_key(results@, result_paths(results@)), keys) && r@
                == first_of_each_key(first_of_each_key(results@, result_paths(results@)), keys),
{
    let mut texts: Vec<String> = Vec::new();
    let mut i: usize = 0;
    while i < results.len()
        invariant
            i <= results@.len(),
            texts@.len() == i,
            forall|k: int| 0 <= k < i ==> (#[trigger] texts@[k])@ == results@[k].path@,
        decreases results@.len() - i,
    {
        texts.push(results[i].path.clone());
        i += 1;
    }
    assert(views(texts@) =~= result_paths(results@));
    let distinct = keep_first_of_each_key(results, &texts);
    let mut keys: Vec<String> = Vec::new();
    let mut i: usize = 0;
    while i < distinct.len()
        invariant
            i <= distinct@.len(),
            keys@.len() == i,
            forall|k: int|
                0 <= k < i ==> (#[trigger] keys@[k])@ == distinct@[k].path@ || (keys@[k]@.len()
                    > 0 && keys@[k]@[0] == '/'),
        decreases distinct@.len() - i,
    {
        let key = match path_canonical(distinct[i].path.as_str()) {
            Some(k) => k,
            None => distinct[i].path.clone(),
        };
        keys.push(key);
        i += 1;
    }
    let r = keep_first_of_each_key(&distinct, &keys);
    proof {
        let s1 = distinct@;
        lemma_path_keys_keep_paths_apart(results@, result_paths(results@));
        lemma_kept_paths_differ(s1, views(keys@));
        lemma_kept_are_given(results@, result_paths(results@));
        lemma_kept_are_given(s1, views(keys@));
        assert(views(keys@).len() == s1.len());
        assert(resolution_keys(s1, views(keys@)));
        assert forall|j: int| 0 <= j < r@.len() implies results@.contains(#[trigger] r@[j]) by {
            let a = choose|a: int| 0 <= a < s1.len() && r@[j] == s1[a];
            let b = choose|b: int| 0 <= b < results@.len() && s1[a] == results@[b];
            assert(results@[b] == r@[j]);
        }
    }
    r
}

} // verus!
