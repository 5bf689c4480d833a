//! Search under a set of roots: which walked entries make results.

use vstd::prelude::*;

use crate::paths::{file_name_of, path_file_name, path_strip_prefix, strip_prefix_of};
use crate::text::{contains_str, has_infix, lowercase, opt_view, str_eq, to_lowercase, views};

verus! {

/// Which kinds of entries a search keeps.
#[derive(Debug, Clone, Copy, PartialEq, Eq, Structural)]
pub enum SearchFilter {
    All,
    Dirs,
    Files,
}

/// One match: the entry's path, whether it is a directory, and the root it
/// was found under.
#[derive(Debug, Clone, PartialEq, Eq)]
pub struct SearchResult {
    pub path: String,
    pub is_dir: bool,
    pub source: String,
}

/// A search: where, for what, which kinds, which names to prune, how many.
#[derive(Debug, Clone)]
pub struct SearchRequest {
    pub roots: Vec<String>,
    pub query: Option<String>,
    pub filter: SearchFilter,
    pub ignore_names: Vec<String>,
    pub limit: usize,
}


/// The query a search matches, lowered: empty when none was given.
pub open spec fn query_text(request: SearchRequest) -> Seq<char> {
    lowercase(
        match opt_view(request.query) {
            Some(q) => q,
            None => Seq::empty(),
        },
    )
}

pub fn search_query_text(request: &SearchRequest) -> (r: String)
    ensures
        r@ == query_text(*request),
{
    match &request.query {
        Some(q) => to_lowercase(q.as_str()),
        None => {
            let empty = String::new();
            to_lowercase(empty.as_str())
        },
    }
}

/// Whether the final name of `path` is one of `ignore_names`.
pub open spec fn has_ignored_name(path: Seq<char>, ignore_names: Seq<Seq<char>>) -> bool {
    match file_name_of(path) {
        Some(name) => ignore_names.contains(name),
        None => false,
    }
}

pub fn ignored_entry_name(path: &str, ignore_names: &Vec<String>) -> (r: bool)
    ensures
        r == has_ignored_name(path@, views(ignore_names@)),
{
    name_is_ignored(path_file_name(path), ignore_names)
}

/// Whether a final name (none: the path has no final name) is one of
/// `ignore_names`.
pub fn name_is_ignored(name: Option<String>, ignore_names: &Vec<String>) -> (r: bool)
    ensures
        r == match opt_view(name) {
            Some(n) => views(ignore_names@).contains(n),
            None => false,
        },
{
    let wanted = match &name {
        Some(n) => n,
        None => return false,
    };
    let mut i: usize = 0;
    while i < ignore_names.len()
        invariant
            i <= ignore_names@.len(),
            opt_view(name) == Some(wanted@),
            forall|k: int| 0 <= k < i ==> ignore_names@[k]@ != wanted@,
        decreases ignore_names@.len() - i,
    {
        if str_eq(ignore_names[i].as_str(), wanted.as_str()) {
            assert(views(ignore_names@)[i as int] == wanted@);
            assert(views(ignore_names@).contains(wanted@));
            return true;
        }
        i += 1;
    }
    assert(!views(ignore_names@).contains(wanted@)) by {
        if views(ignore_names@).contains(wanted@) {
            let k = choose|k: int| 0 <= k < views(ignore_names@).len() && views(ignore_names@)[k]
                == wanted@;
            assert(ignore_names@[k]@ == wanted@);
        }
    }
    false
}

/// Whether the walk goes into an entry: the root always, anything else
/// unless its name is ignored (an ignored directory is pruned whole).
pub open spec fn walk_keeps(root: Seq<char>, path: Seq<char>, ignore_names: Seq<Seq<char>>) -> bool {
    path == root || !has_ignored_name(path, ignore_names)
}

pub fn keep_walked_entry(root: &str, path: &str, ignore_names: &Vec<String>) -> (r: bool)
    ensures
        r == walk_keeps(root@, path@, views(ignore_names@)),
{
    str_eq(path, root) || !ignored_entry_name(path, ignore_names)
}

/// Whether a filter keeps an entry of the given kind.
pub open spec fn kind_allowed(filter: SearchFilter, is_dir: bool) -> bool {
    match filter {
        SearchFilter::All => true,
        SearchFilter::Dirs => is_dir,
        SearchFilter::Files => !is_dir,
    }
}

/// The text a query is matched against: the path below its root, lowered.
pub open spec fn match_text(path: Seq<char>, root: Seq<char>) -> Seq<char> {
    lowercase(
        match strip_prefix_of(path, root) {
            Some(rel) => rel,
            None => path,
        },
    )
}

/// Whether a walked entry is a result, given the text its query is matched
/// against (see `match_text`): not the root itself, of a kind the filter
/// keeps, and, when there is a query, holding it (the query is lowered, the
/// text is lowered).
pub open spec fn entry_matches_text(
    request: SearchRequest,
    query: Seq<char>,
    root: Seq<char>,
    path: Seq<char>,
    is_dir: bool,
    text: Seq<char>,
) -> bool {
    &&& path != root
    &&& kind_allowed(request.filter, is_dir)
    &&& (query.len() == 0 || has_infix(text, query))
}

/// Whether a walked entry is a result: as `entry_matches_text`, with the
/// path below the root, lowered, as the text.
pub open spec fn entry_matches(
    request: SearchRequest,
    query: Seq<char>,
    root: Seq<char>,
    path: Seq<char>,
    is_dir: bool,
) -> bool {
    entry_matches_text(request, query, root, path, is_dir, match_text(path, root))
}

/// Whether a search still wants results.
pub fn search_has_room(request: &SearchRequest, results: &Vec<SearchResult>) -> (r: bool)
    ensures
        r == (results@.len() < request.limit),
{
    results.len() < request.limit
}

/// What taking an entry does to the results: a match is added at the end
/// (its root as its source) and the search stops once it has `limit`
/// results; anything else leaves them as they were and goes on.
pub open spec fn takes_entry(
    matched: bool,
    request: SearchRequest,
    root: Seq<char>,
    path: Seq<char>,
    is_dir: bool,
    before: Seq<SearchResult>,
    after: Seq<SearchResult>,
    stop: bool,
) -> bool {
    if matched {
        &&& after.len() == before.len() + 1
        &&& after.drop_last() == before
        &&& after.last().path@ == path
        &&& after.last().is_dir == is_dir
        &&& after.last().source@ == root
        &&& stop == (after.len() >= request.limit)
    } else {
        after == before && !stop
    }
}

/// Takes one walked entry: adds it to `results` when it matches (its root
/// as its source), and says whether the search has all it wants.
pub fn consider_entry(
    request: &SearchRequest,
    query: &str,
    root: &str,
    path: &str,
    is_dir: bool,
    results: &mut Vec<SearchResult>,
) -> (stop: bool)
    ensures
        takes_entry(
            entry_matches(*request, query@, root@, path@, is_dir),
            *request,
            root@,
            path@,
            is_dir,
            old(results)@,
            final(results)@,
            stop,
        ),
        old(results)@.len() < request.limit ==> final(results)@.len() <= request.limit,
{
    let relative = match path_strip_prefix(path, root) {
        Some(rel) => rel,
        None => path.to_owned(),
    };
    let text = to_lowercase(relative.as_str());
    consider_entry_text(request, query, root, path, is_dir, text.as_str(), results)
}

/// Takes one walked entry whose query text (its path below the root,
/// lowered) is `text`.
pub fn consider_entry_text(
    request: &SearchRequest,
    query: &str,
    root: &str,
    path: &str,
    is_dir: bool,
    text: &str,
    results: &mut Vec<SearchResult>,
) -> (stop: bool)
    ensures
        takes_entry(
            entry_matches_text(*request, query@, root@, path@, is_dir, text@),
            *request,
            root@,
            path@,
            is_dir,
            old(results)@,
            final(results)@,
            stop,
        ),
        old(results)@.len() < request.limit ==> final(results)@.len() <= request.limit,
{
    if str_eq(path, root) {
        return false;
    }
    let allowed = match request.filter {
        SearchFilter::All => true,
        SearchFilter::Dirs => is_dir,
        SearchFilter::Files => !is_dir,
    };
    if !allowed {
        return false;
    }
    if !query.is_empty() && !contains_str(text, query) {
        return false;
    }
    let ghost before = results@;
    results.push(SearchResult { path: path.to_owned(), is_dir, source: root.to_owned() });
    assert(results@.drop_last() =~= before);
    results.len() >= request.limit
}

} // verus!
