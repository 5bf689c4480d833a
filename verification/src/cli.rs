//! The commands of the `at` binary, as the command line gives them.

use vstd::prelude::*;

use crate::text::{joined, join_strings, opt_view, trim, trim_str, views};

verus! {

/// A parsed command line: a command, or none for the default Flow.
#[derive(Debug, Clone, PartialEq, Eq)]
pub struct Cli {
    pub command: Option<Command>,
}

#[derive(Debug, Clone, PartialEq, Eq)]
#[allow(inconsistent_fields)]
pub enum Command {
    Flow { shell: bool, query: Vec<String> },
    Setting { path: bool },
    Init,
    RecentRecord { path: String },
    Shell { command: ShellCommand },
}

#[derive(Debug, Clone, Copy, PartialEq, Eq, Structural)]
pub enum ShellCommand {
    Print,
    Hook,
}

/// The query the words of a command line ask for: the words joined by
/// spaces and trimmed, and no query when nothing is left.
pub open spec fn query_of_words(words: Seq<Seq<char>>) -> Option<Seq<char>> {
    let t = trim(joined(words, " "@));
    if t.len() == 0 {
        None
    } else {
        Some(t)
    }
}

impl Command {
    pub fn search_query(query: &[String]) -> (r: Option<String>)
        ensures
            opt_view(r) == query_of_words(views(query@)),
    {
        let joined_words = join_strings(query, " ");
        let trimmed = trim_str(joined_words.as_str());
        if trimmed.as_str().is_empty() {
            None
        } else {
            Some(trimmed)
        }
    }
}

} // verus!
