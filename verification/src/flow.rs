//! Flow: browsing directories one level at a time.

use vstd::prelude::*;

use crate::paths::{parent_of, path_exists, path_is_dir, path_join, path_parent};

verus! {

broadcast use vstd::seq_lib::group_to_multiset_ensures;

/// One entry of a listed directory.
#[derive(Debug, Clone, PartialEq, Eq)]
pub struct FlowEntry {
    pub path: String,
    pub name: String,
    pub is_dir: bool,
}

/// The directory being browsed and the selected row in it.
#[derive(Debug, Clone, PartialEq, Eq)]
pub struct FlowState {
    pub cwd: String,
    pub selected: usize,
}

impl FlowState {
    pub fn new(start: String) -> (r: Self)
        ensures
            r.cwd@ == start@,
            r.selected == 0,
    {
        FlowState { cwd: start, selected: 0 }
    }

    /// Moves to the parent directory, with the first row selected; stays put
    /// at a root.
    pub fn parent(&mut self)
        ensures
            match parent_of(old(self).cwd@) {
                Some(p) => final(self).cwd@ == p && final(self).selected == 0,
                None => final(self).cwd@ == old(self).cwd@ && final(self).selected == old(
                    self,
                ).selected,
            },
    {
        if let Some(parent) = path_parent(self.cwd.as_str()) {
            self.cwd = parent;
            self.selected = 0;
        }
    }

    /// Moves into `entry` when it was listed as a directory and still is one
    /// on disk, with the first row selected; else stays put. Whether it
    /// still is one is asked of the disk, so either may happen to a
    /// directory entry.
    pub fn enter(&mut self, entry: &FlowEntry)
        ensures
            entry.is_dir && final(self).cwd@ == entry.path@ && final(self).selected == 0
                || final(self).cwd@ == old(self).cwd@ && final(self).selected == old(
                self,
            ).selected,
            !entry.is_dir ==> final(self).cwd@ == old(self).cwd@ && final(self).selected == old(
                self,
            ).selected,
    {
        let on_disk = entry.is_dir && path_is_dir(entry.path.as_str());
        self.enter_if_dir(entry, on_disk);
    }

    /// Moves into `entry` when it was listed as a directory and still is one
    /// on disk (`path_is_dir`), with the first row selected; else stays put.
    pub fn enter_if_dir(&mut self, entry: &FlowEntry, path_is_dir: bool)
        ensures
            if entry.is_dir && path_is_dir {
                final(self).cwd@ == entry.path@ && final(self).selected == 0
            } else {
                final(self).cwd@ == old(self).cwd@ && final(self).selected == old(self).selected
            },
    {
        if entry.is_dir && path_is_dir {
            self.cwd = entry.path.clone();
            self.selected = 0;
        }
    }
}

/// Whether `a` comes strictly before `b` in the order of their characters,
/// as `str` orders text.
pub open spec fn name_lt(a: Seq<char>, b: Seq<char>) -> bool
    decreases a.len(),
{
    if a.len() == 0 {
        b.len() > 0
    } else if b.len() == 0 {
        false
    } else if a[0] != b[0] {
        (a[0] as u32) < (b[0] as u32)
    } else {
        name_lt(a.drop_first(), b.drop_first())
    }
}

/// Whether `x` is listed strictly before `y`: directories first, then by name.
pub open spec fn entry_lt(x: FlowEntry, y: FlowEntry) -> bool {
    ||| x.is_dir && !y.is_dir
    ||| x.is_dir == y.is_dir && name_lt(x.name@, y.name@)
}

/// No entry is listed after one that belongs after it.
pub open spec fn entries_sorted(s: Seq<FlowEntry>) -> bool {
    forall|i: int, j: int| 0 <= i < j < s.len() ==> !entry_lt(#[trigger] s[j], #[trigger] s[i])
}

proof fn lemma_name_lt_irreflexive(a: Seq<char>)
    ensures
        !name_lt(a, a),
    decreases a.len(),
{
    if a.len() > 0 {
        lemma_name_lt_irreflexive(a.drop_first());
    }
}

proof fn lemma_name_lt_transitive(a: Seq<char>, b: Seq<char>, c: Seq<char>)
    requires
        name_lt(a, b),
        name_lt(b, c),
    ensures
        name_lt(a, c),
    decreases a.len(),
{
    if a.len() > 0 && b.len() > 0 && c.len() > 0 {
        if a[0] == b[0] && b[0] == c[0] {
            lemma_name_lt_transitive(a.drop_first(), b.drop_first(), c.drop_first());
        }
    }
}

proof fn lemma_entry_lt_irreflexive(x: FlowEntry)
    ensures
        !entry_lt(x, x),
{
    lemma_name_lt_irreflexive(x.name@);
}

proof fn lemma_entry_lt_transitive(x: FlowEntry, y: FlowEntry, z: FlowEntry)
    requires
        entry_lt(x, y),
        entry_lt(y, z),
    ensures
        entry_lt(x, z),
{
    if x.is_dir == y.is_dir && y.is_dir == z.is_dir {
        lemma_name_lt_transitive(x.name@, y.name@, z.name@);
    }
}

fn name_less(a: &String, b: &String) -> (r: bool)
    ensures
        r == name_lt(a@, b@),
{
    let x = crate::text::to_chars(a.as_str());
    let y = crate::text::to_chars(b.as_str());
    let mut i: usize = 0;
    assert(x@.subrange(0, x@.len() as int) =~= x@);
    assert(y@.subrange(0, y@.len() as int) =~= y@);
    while i < x.len() && i < y.len() && x[i] == y[i]
        invariant
            x@ == a@,
            y@ == b@,
            i <= x@.len(),
            i <= y@.len(),
            x@.subrange(0, i as int) == y@.subrange(0, i as int),
            name_lt(a@, b@) == name_lt(x@.subrange(i as int, x@.len() as int), y@.subrange(
                i as int,
                y@.len() as int,
            )),
        decreases x@.len() - i,
    {
        proof {
            let xs = x@.subrange(i as int, x@.len() as int);
            let ys = y@.subrange(i as int, y@.len() as int);
            assert(xs.drop_first() =~= x@.subrange(i + 1, x@.len() as int));
            assert(ys.drop_first() =~= y@.subrange(i + 1, y@.len() as int));
            assert(x@.subrange(0, i + 1) =~= x@.subrange(0, i as int).push(x@[i as int]));
            assert(y@.subrange(0, i + 1) =~= y@.subrange(0, i as int).push(y@[i as int]));
        }
        i += 1;
    }
    if i == x.len() {
        i < y.len()
    } else if i == y.len() {
        false
    } else {
        (x[i] as u32) < (y[i] as u32)
    }
}

/// A copy of an entry.
pub fn copy_entry(e: &FlowEntry) -> (r: FlowEntry)
    ensures
        r == *e,
{
    FlowEntry { path: e.path.clone(), name: e.name.clone(), is_dir: e.is_dir }
}

fn entry_less(x: &FlowEntry, y: &FlowEntry) -> (r: bool)
    ensures
        r == entry_lt(*x, *y),
{
    if x.is_dir != y.is_dir {
        x.is_dir
    } else {
        name_less(&x.name, &y.name)
    }
}

/// A listed directory in display order: directories first, then names in
/// ascending order; the same entries, each as often as before.
pub fn sort_entries(entries: Vec<FlowEntry>) -> (r: Vec<FlowEntry>)
    ensures
        entries_sorted(r@),
        r@.to_multiset() == entries@.to_multiset(),
{
    let mut sorted: Vec<FlowEntry> = Vec::new();
    let mut i: usize = 0;
    while i < entries.len()
        invariant
            i <= entries@.len(),
            entries_sorted(sorted@),
            sorted@.to_multiset() == entries@.subrange(0, i as int).to_multiset(),
        decreases entries@.len() - i,
    {
        let x = copy_entry(&entries[i]);
        let mut p: usize = 0;
        while p < sorted.len() && !entry_less(&x, &sorted[p])
            invariant
                p <= sorted@.len(),
                forall|k: int| 0 <= k < p ==> !entry_lt(x, #[trigger] sorted@[k]),
            decreases sorted@.len() - p,
        {
            p += 1;
        }
        let ghost before = sorted@;
        sorted.insert(p, x);
        proof {
            assert(sorted@ == before.insert(p as int, x));
            assert forall|a: int, b: int| 0 <= a < b < sorted@.len() implies !entry_lt(
                #[trigger] sorted@[b],
                #[trigger] sorted@[a],
            ) by {
                if b < p {
                } else if a < p && b == p {
                } else if a < p && b > p {
                    if entry_lt(sorted@[b], sorted@[a]) {
                        assert(sorted@[b] == before[b - 1]);
                        assert(sorted@[a] == before[a]);
                    }
                } else if a == p {
                    let y = before[b - 1];
                    if entry_lt(y, x) {
                        assert(p < before.len());
                        assert(entry_lt(x, before[p as int]));
                        lemma_entry_lt_transitive(y, x, before[p as int]);
                        if b - 1 == p {
                            lemma_entry_lt_irreflexive(y);
                        }
                    }
                } else {
                    assert(sorted@[b] == before[b - 1]);
                    assert(sorted@[a] == before[a - 1]);
                }
            }
            assert(sorted@.remove(p as int) =~= before);
            assert(entries@.subrange(0, i + 1) =~= entries@.subrange(0, i as int).push(x));
        }
        i += 1;
    }
    assert(entries@.subrange(0, entries@.len() as int) =~= entries@);
    sorted
}

/// The next step of the search for the Git root above a directory: found
/// when the directory holds a `.git` entry, else go on with its parent, else
/// there is none.
#[derive(Debug, Clone, PartialEq, Eq)]
pub enum GitRootProbe {
    Found(String),
    Probe(String),
    NotFound,
}

pub fn git_root_step(current: &str, has_git_marker: bool) -> (r: GitRootProbe)
    ensures
        match r {
            GitRootProbe::Found(p) => has_git_marker && p@ == current@,
            GitRootProbe::Probe(p) => !has_git_marker && parent_of(current@) == Some(p@)
                && p@.len() < current@.len(),
            GitRootProbe::NotFound => !has_git_marker && parent_of(current@) is None,
        },
{
    if has_git_marker {
        return GitRootProbe::Found(current.to_owned());
    }
    match path_parent(current) {
        Some(parent) => GitRootProbe::Probe(parent),
        None => GitRootProbe::NotFound,
    }
}

/// The path `n` parents above `path` (`path` itself for none), if there are
/// that many.
pub open spec fn nth_parent(path: Seq<char>, n: nat) -> Option<Seq<char>>
    decreases n,
{
    if n == 0 {
        Some(path)
    } else {
        match nth_parent(path, (n - 1) as nat) {
            Some(q) => parent_of(q),
            None => None,
        }
    }
}

/// Whether `dir` is `path` or one of the directories above it.
pub open spec fn at_or_above(dir: Seq<char>, path: Seq<char>) -> bool {
    exists|n: nat| nth_parent(path, n) == Some(dir)
}

/// Whether the parents above `path` run out: some directory at or above
/// it has no parent.
pub open spec fn reaches_top(path: Seq<char>) -> bool {
    exists|k: nat| #[trigger] nth_parent(path, k) matches Some(p) && parent_of(p) is None
}

/// The nearest directory at or above `start` that holds a `.git` entry on
/// disk now. Which one that is the disk decides; what holds of every answer
/// is that a root found is `start` or a directory above it, and that none
/// is found only after the search reached the top.
pub fn git_root_from(start: &str) -> (r: Option<String>)
    ensures
        r matches Some(root) ==> at_or_above(root@, start@),
        r is None ==> reaches_top(start@),
{
    let mut current = start.to_owned();
    let ghost mut steps: nat = 0;
    assert(nth_parent(start@, 0) == Some(current@));
    loop
        invariant
            nth_parent(start@, steps) == Some(current@),
        decreases current@.len(),
    {
        let marker = path_join(current.as_str(), ".git");
        let has_git = path_exists(marker.as_str());
        match git_root_step(current.as_str(), has_git) {
            GitRootProbe::Found(root) => {
                assert(nth_parent(start@, steps) == Some(root@));
                return Some(root);
            },
            GitRootProbe::Probe(parent) => {
                proof {
                    assert(nth_parent(start@, steps + 1) == Some(parent@));
                    steps = steps + 1;
                }
                current = parent;
            },
            GitRootProbe::NotFound => {
                assert(nth_parent(start@, steps) matches Some(p) && parent_of(p) is None);
                return None;
            },
        }
    }
}

/// Where Flow starts: the Git root above `current` when asked for and
/// found, else `current`.
pub fn flow_start(current: &str, start_from_git_root: bool) -> (r: String)
    ensures
        !start_from_git_root ==> r@ == current@,
        at_or_above(r@, current@),
{
    let git_root = if start_from_git_root {
        git_root_from(current)
    } else {
        None
    };
    let r = flow_start_from(current, start_from_git_root, git_root);
    assert(nth_parent(current@, 0) == Some(current@));
    r
}

/// Where Flow starts, given the Git root found above `current` (if any):
/// that root when asked for and found, else `current`.
pub fn flow_start_from(current: &str, start_from_git_root: bool, git_root: Option<String>) -> (r:
    String)
    ensures
        r@ == match (start_from_git_root, git_root) {
            (true, Some(root)) => root@,
            _ => current@,
        },
{
    if start_from_git_root {
        match git_root {
            Some(root) => root,
            None => current.to_owned(),
        }
    } else {
        current.to_owned()
    }
}

} // verus!
