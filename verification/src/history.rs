//! The history of opened paths: the kinds and sources of the paths it
//! records, their stored names, and the table that records opens and lists
//! the most recent directories.

use vstd::prelude::*;

use crate::text::str_eq;

verus! {

/// Whether a recorded path is a directory or a file.
#[derive(Debug, Clone, Copy, PartialEq, Eq, Structural)]
pub enum PathKind {
    Dir,
    File,
}

/// What recorded a path.
#[derive(Debug, Clone, Copy, PartialEq, Eq, Structural)]
pub enum HistorySource {
    Atflow,
    ShellCdHook,
    ManualRootScan,
}

/// One row of the history: a path, what it is, what recorded it last, when
/// it was last opened and how often it was opened.
#[derive(Debug, Clone, PartialEq, Eq)]
pub struct HistoryEntry {
    pub path: String,
    pub kind: PathKind,
    pub source: HistorySource,
    pub last_opened_at: i64,
    pub open_count: i64,
}

/// The name a kind is stored under.
pub open spec fn kind_text(kind: PathKind) -> Seq<char> {
    match kind {
        PathKind::Dir => "dir"@,
        PathKind::File => "file"@,
    }
}

/// The kind a stored name stands for: `file`, and a directory for anything else.
pub open spec fn kind_of_text(text: Seq<char>) -> PathKind {
    if text == "file"@ {
        PathKind::File
    } else {
        PathKind::Dir
    }
}

/// The name a source is stored under.
pub open spec fn source_text(source: HistorySource) -> Seq<char> {
    match source {
        HistorySource::Atflow => "atflow"@,
        HistorySource::ShellCdHook => "shell_cd_hook"@,
        HistorySource::ManualRootScan => "manual_root_scan"@,
    }
}

/// The source a stored name stands for, AtFlow itself for an unknown name.
pub open spec fn source_of_text(text: Seq<char>) -> HistorySource {
    if text == "shell_cd_hook"@ {
        HistorySource::ShellCdHook
    } else if text == "manual_root_scan"@ {
        HistorySource::ManualRootScan
    } else {
        HistorySource::Atflow
    }
}

impl PathKind {
    pub fn as_str(self) -> (r: &'static str)
        ensures
            r@ == kind_text(self),
    {
        match self {
            PathKind::Dir => "dir",
            PathKind::File => "file",
        }
    }

    /// Reads a stored kind; never fails.
    pub fn from_str(value: &str) -> (r: Self)
        ensures
            r == kind_of_text(value@),
    {
        parse_kind(value)
    }
}

fn parse_kind(value: &str) -> (r: PathKind)
    ensures
        r == kind_of_text(value@),
{
    if str_eq(value, "file") {
        PathKind::File
    } else {
        PathKind::Dir
    }
}

fn parse_source(value: &str) -> (r: HistorySource)
    ensures
        r == source_of_text(value@),
{
    if str_eq(value, "shell_cd_hook") {
        HistorySource::ShellCdHook
    } else if str_eq(value, "manual_root_scan") {
        HistorySource::ManualRootScan
    } else {
        HistorySource::Atflow
    }
}

impl std::str::FromStr for PathKind {
    type Err = std::convert::Infallible;

    /// Reads a stored kind as `PathKind::from_str` does; never fails.
    fn from_str(value: &str) -> Result<Self, Self::Err>
        returns
            Ok::<PathKind, std::convert::Infallible>(kind_of_text(value@)),
    {
        Ok(parse_kind(value))
    }
}

impl HistorySource {
    pub fn as_str(self) -> (r: &'static str)
        ensures
            r@ == source_text(self),
    {
        match self {
            HistorySource::Atflow => "atflow",
            HistorySource::ShellCdHook => "shell_cd_hook",
            HistorySource::ManualRootScan => "manual_root_scan",
        }
    }

    /// Reads a stored source; never fails.
    pub fn from_str(value: &str) -> (r: Self)
        ensures
            r == source_of_text(value@),
    {
        parse_source(value)
    }
}

impl std::str::FromStr for HistorySource {
    type Err = std::convert::Infallible;

    /// Reads a stored source as `HistorySource::from_str` does; never fails.
    fn from_str(value: &str) -> Result<Self, Self::Err>
        returns
            Ok::<HistorySource, std::convert::Infallible>(source_of_text(value@)),
    {
        Ok(parse_source(value))
    }
}

/// Reading back the stored name of a kind gives the kind.
pub proof fn kind_text_round_trip(kind: PathKind)
    ensures
        kind_of_text(kind_text(kind)) == kind,
{
    reveal_strlit("dir");
    reveal_strlit("file");
    assert("dir"@ != "file"@) by {
        assert("dir"@.len() != "file"@.len());
    }
}

/// Reading back the stored name of a source gives the source.
pub proof fn source_text_round_trip(source: HistorySource)
    ensures
        source_of_text(source_text(source)) == source,
{
    reveal_strlit("atflow");
    reveal_strlit("shell_cd_hook");
    reveal_strlit("manual_root_scan");
    assert("atflow"@ != "shell_cd_hook"@) by {
        assert("atflow"@.len() != "shell_cd_hook"@.len());
    }
    assert("atflow"@ != "manual_root_scan"@) by {
        assert("atflow"@.len() != "manual_root_scan"@.len());
    }
    assert("shell_cd_hook"@ != "manual_root_scan"@) by {
        assert("shell_cd_hook"@[0] != "manual_root_scan"@[0]);
    }
}

/// A history row as a value: its path as text and its counters as integers.
pub ghost struct HistoryRow {
    pub path: Seq<char>,
    pub kind: PathKind,
    pub source: HistorySource,
    pub last_opened_at: int,
    pub open_count: int,
}

impl View for HistoryEntry {
    type V = HistoryRow;

    open spec fn view(&self) -> HistoryRow {
        HistoryRow {
            path: self.path@,
            kind: self.kind,
            source: self.source,
            last_opened_at: self.last_opened_at as int,
            open_count: self.open_count as int,
        }
    }
}

/// The rows of a list of entries, in order.
pub open spec fn rows_of(entries: Seq<HistoryEntry>) -> Seq<HistoryRow> {
    entries.map_values(|e: HistoryEntry| e@)
}

/// No two rows share a path.
pub open spec fn paths_distinct(rows: Seq<HistoryRow>) -> bool {
    forall|i: int, j: int| 0 <= i < j < rows.len() ==> rows[i].path != rows[j].path
}

/// Whether some row has the path.
pub open spec fn has_path(rows: Seq<HistoryRow>, path: Seq<char>) -> bool {
    exists|i: int| 0 <= i < rows.len() && rows[i].path == path
}

/// The index of the row with the path (meaningful when there is one).
pub open spec fn index_of_path(rows: Seq<HistoryRow>, path: Seq<char>) -> int {
    choose|i: int| 0 <= i < rows.len() && rows[i].path == path
}

/// The rows after recording an open of `path`: a path already there gets
/// the new kind, source and time and one more open; a new path is added at
/// the end, opened once.
pub open spec fn recorded(
    rows: Seq<HistoryRow>,
    path: Seq<char>,
    kind: PathKind,
    source: HistorySource,
    timestamp: int,
) -> Seq<HistoryRow> {
    if has_path(rows, path) {
        let i = index_of_path(rows, path);
        rows.update(
            i,
            HistoryRow {
                path,
                kind,
                source,
                last_opened_at: timestamp,
                open_count: rows[i].open_count + 1,
            },
        )
    } else {
        rows.push(HistoryRow { path, kind, source, last_opened_at: timestamp, open_count: 1 })
    }
}

/// The rows after storing `row` as it is: it takes the place of the row
/// with its path, or is added at the end.
pub open spec fn stored(rows: Seq<HistoryRow>, row: HistoryRow) -> Seq<HistoryRow> {
    if has_path(rows, row.path) {
        rows.update(index_of_path(rows, row.path), row)
    } else {
        rows.push(row)
    }
}

/// Whether recording `path` would push its open count past the largest
/// count a row holds.
pub open spec fn count_saturated(rows: Seq<HistoryRow>, path: Seq<char>) -> bool {
    exists|i: int| 0 <= i < rows.len() && rows[i].path == path && rows[i].open_count == i64::MAX
}

/// Whether `a` is listed before `b` among recent paths, or may be: opened
/// later, or at the same time and at least as often.
pub open spec fn ranks_before(a: HistoryRow, b: HistoryRow) -> bool {
    ||| a.last_opened_at > b.last_opened_at
    ||| (a.last_opened_at == b.last_opened_at && a.open_count >= b.open_count)
}

/// Whether `r` lists the most recent directories of `rows`, at most
/// `limit` of them: directory rows of the table, each once, most recent
/// first (later time first, then more opens); a directory left out means
/// the list is full and everything on it ranks at least as high.
pub open spec fn is_recent_dirs(r: Seq<HistoryRow>, rows: Seq<HistoryRow>, limit: int) -> bool {
    &&& r.len() <= limit
    &&& forall|j: int| 0 <= j < r.len() ==> rows.contains(#[trigger] r[j]) && r[j].kind
        == PathKind::Dir
    &&& forall|j: int, k: int|
        0 <= j < k < r.len() ==> r[j].path != r[k].path && ranks_before(r[j], r[k])
    &&& forall|x: HistoryRow|
        rows.contains(x) && x.kind == PathKind::Dir && !r.contains(x) ==> r.len() == limit && (
        forall|j: int| 0 <= j < r.len() ==> ranks_before(#[trigger] r[j], x))
}

/// Why recording an open failed.
#[derive(Debug, Clone, Copy, PartialEq, Eq, Structural)]
pub enum HistoryError {
    /// The path's open count is already the largest a row holds.
    CountOverflow,
}

/// The history table: one row per path, in the order the paths were first
/// recorded.
pub struct HistoryDb {
    entries: Vec<HistoryEntry>,
}

fn copy_history_entry(e: &HistoryEntry) -> (r: HistoryEntry)
    ensures
        r@ == e@,
{
    HistoryEntry {
        path: e.path.clone(),
        kind: e.kind,
        source: e.source,
        last_opened_at: e.last_opened_at,
        open_count: e.open_count,
    }
}

impl View for HistoryDb {
    type V = Seq<HistoryRow>;

    closed spec fn view(&self) -> Seq<HistoryRow> {
        rows_of(self.entries@)
    }
}

impl HistoryDb {
    #[verifier::type_invariant]
    spec fn paths_are_distinct(self) -> bool {
        paths_distinct(rows_of(self.entries@))
    }

    /// The index of the row with `path`, if there is one.
    fn find(&self, path: &str) -> (r: Option<usize>)
        ensures
            match r {
                Some(i) => i < self.entries@.len() && self.entries@[i as int]@.path == path@
                    && i == index_of_path(self@, path@),
                None => !has_path(self@, path@),
            },
    {
        proof {
            use_type_invariant(self);
        }
        let mut i: usize = 0;
        while i < self.entries.len()
            invariant
                i <= self.entries@.len(),
                paths_distinct(self@),
                forall|k: int| 0 <= k < i ==> self.entries@[k]@.path != path@,
            decreases self.entries@.len() - i,
        {
            if str_eq(self.entries[i].path.as_str(), path) {
                proof {
                    let rows = self@;
                    assert(rows[i as int].path == path@);
                    let c = index_of_path(rows, path@);
                    assert(0 <= c < rows.len() && rows[c].path == path@);
                    assert(c == i) by {
                        if c < i {
                            assert(rows[c].path != rows[i as int].path);
                        } else if c > i {
                            assert(rows[i as int].path != rows[c].path);
                        }
                    }
                }
                return Some(i);
            }
            i += 1;
        }
        proof {
            if has_path(self@, path@) {
                let k = choose|k: int| 0 <= k < self@.len() && self@[k].path == path@;
                assert(self.entries@[k]@.path == path@);
            }
        }
        None
    }

    /// An empty table.
    pub fn open_memory() -> (r: Self)
        ensures
            r@ == Seq::<HistoryRow>::empty(),
    {
        let r = HistoryDb { entries: Vec::new() };
        assert(rows_of(r.entries@) =~= Seq::<HistoryRow>::empty());
        r
    }

    /// Records an open of `path` at `timestamp` (see `recorded`); fails,
    /// changing nothing, when its open count cannot grow.
    pub fn record_path_at(
        &mut self,
        path: &str,
        kind: PathKind,
        source: HistorySource,
        timestamp: i64,
    ) -> (r: Result<(), HistoryError>)
        ensures
            r is Err <==> count_saturated(old(self)@, path@),
            r is Ok ==> final(self)@ == recorded(
                old(self)@,
                path@,
                kind,
                source,
                timestamp as int,
            ),
            r is Err ==> final(self)@ == old(self)@,
    {
        proof {
            use_type_invariant(&*self);
        }
        let ghost rows = self@;
        match self.find(path) {
            Some(i) => {
                let count = self.entries[i].open_count;
                if count == i64::MAX {
                    return Err(HistoryError::CountOverflow);
                }
                let row = HistoryEntry {
                    path: path.to_owned(),
                    kind,
                    source,
                    last_opened_at: timestamp,
                    open_count: count + 1,
                };
                let mut entries = Vec::new();
                std::mem::swap(&mut entries, &mut self.entries);
                entries.set(i, row);
                proof {
                    assert(rows_of(entries@) =~= recorded(
                        rows,
                        path@,
                        kind,
                        source,
                        timestamp as int,
                    ));
                    assert(!count_saturated(rows, path@)) by {
                        if count_saturated(rows, path@) {
                            let k = choose|k: int|
                                0 <= k < rows.len() && rows[k].path == path@ && rows[k].open_count
                                    == i64::MAX;
                            if k != i {
                                assert(rows[k].path != rows[i as int].path);
                            }
                        }
                    }
                }
                self.entries = entries;
                Ok(())
            },
            None => {
                let row = HistoryEntry {
                    path: path.to_owned(),
                    kind,
                    source,
                    last_opened_at: timestamp,
                    open_count: 1,
                };
                let mut entries = Vec::new();
                std::mem::swap(&mut entries, &mut self.entries);
                entries.push(row);
                proof {
                    assert(rows_of(entries@) =~= recorded(
                        rows,
                        path@,
                        kind,
                        source,
                        timestamp as int,
                    ));
                }
                self.entries = entries;
                Ok(())
            },
        }
    }

    /// Stores `entry` as it is (see `stored`).
    pub fn put_entry(&mut self, entry: HistoryEntry)
        ensures
            final(self)@ == stored(old(self)@, entry@),
    {
        proof {
            use_type_invariant(&*self);
        }
        let ghost rows = self@;
        let ghost row = entry@;
        let found = self.find(entry.path.as_str());
        let mut entries = Vec::new();
        std::mem::swap(&mut entries, &mut self.entries);
        match found {
            Some(i) => {
                assert(rows[i as int].path == row.path);
                entries.set(i, entry);
                assert(rows_of(entries@) =~= rows.update(i as int, row));
            },
            None => {
                entries.push(entry);
                assert(rows_of(entries@) =~= rows.push(row));
            },
        }
        self.entries = entries;
    }

    /// The row recorded for `path`, if there is one.
    pub fn entry_for(&self, path: &str) -> (r: Option<HistoryEntry>)
        ensures
            match r {
                Some(e) => has_path(self@, path@) && e@ == self@[index_of_path(self@, path@)],
                None => !has_path(self@, path@),
            },
    {
        match self.find(path) {
            Some(i) => {
                assert(self@[i as int] == self.entries@[i as int]@);
                Some(copy_history_entry(&self.entries[i]))
            },
            None => None,
        }
    }

    /// The most recent directories, at most `limit` of them (see
    /// `is_recent_dirs`); rows that tie keep the table's order.
    pub fn recent_dirs(&self, limit: usize) -> (r: Vec<HistoryEntry>)
        ensures
            is_recent_dirs(rows_of(r@), self@, limit as int),
    {
        proof {
            use_type_invariant(self);
        }
        let ghost rows = self@;
        let n = self.entries.len();
        let mut taken: Vec<bool> = Vec::new();
        let mut k: usize = 0;
        while k < n
            invariant
                k <= n,
                n == self.entries@.len(),
                taken@.len() == k,
                forall|j: int| 0 <= j < k ==> !taken@[j],
            decreases n - k,
        {
            taken.push(false);
            k += 1;
        }
        let mut out: Vec<HistoryEntry> = Vec::new();
        let ghost mut picked: Seq<int> = Seq::empty();
        let mut exhausted = false;
        while out.len() < limit && !exhausted
            invariant
                rows == self@,
                rows.len() == n,
                paths_distinct(rows),
                taken@.len() == n,
                out@.len() <= limit,
                picked.len() == out@.len(),
                forall|j: int|
                    0 <= j < picked.len() ==> 0 <= #[trigger] picked[j] < n && taken@[picked[j]]
                        && rows[picked[j]] == out@[j]@,
                forall|j: int, l: int| 0 <= j < l < picked.len() ==> picked[j] != picked[l],
                forall|m: int|
                    0 <= m < n && #[trigger] taken@[m] ==> exists|j: int|
                        0 <= j < picked.len() && picked[j] == m,
                forall|m: int| 0 <= m < n && taken@[m] ==> rows[m].kind == PathKind::Dir,
                forall|j: int, l: int|
                    0 <= j < l < out@.len() ==> ranks_before(out@[j]@, out@[l]@),
                forall|m: int, j: int|
                    0 <= m < n && !taken@[m] && rows[m].kind == PathKind::Dir && 0 <= j
                        < out@.len() ==> ranks_before(#[trigger] out@[j]@, #[trigger] rows[m]),
                exhausted ==> forall|m: int|
                    0 <= m < n && !#[trigger] taken@[m] ==> rows[m].kind != PathKind::Dir,
            decreases limit - out@.len(), if exhausted {
                0int
            } else {
                1int
            },
        {
            let mut best: Option<usize> = None;
            let mut i: usize = 0;
            while i < n
                invariant
                    rows == self@,
                    rows.len() == n,
                    taken@.len() == n,
                    i <= n,
                    match best {
                        Some(b) => {
                            &&& b < i
                            &&& !taken@[b as int]
                            &&& rows[b as int].kind == PathKind::Dir
                            &&& forall|m: int|
                                0 <= m < i && !taken@[m] && rows[m].kind == PathKind::Dir
                                    ==> ranks_before(rows[b as int], #[trigger] rows[m])
                        },
                        None => forall|m: int|
                            0 <= m < i && !#[trigger] taken@[m] ==> rows[m].kind != PathKind::Dir,
                    },
                decreases n - i,
            {
                if !taken[i] && self.entries[i].kind == PathKind::Dir {
                    match best {
                        None => {
                            best = Some(i);
                        },
                        Some(b) => {
                            let eb = &self.entries[b];
                            let ei = &self.entries[i];
                            if ei.last_opened_at > eb.last_opened_at || (ei.last_opened_at
                                == eb.last_opened_at && ei.open_count > eb.open_count) {
                                best = Some(i);
                            }
                        },
                    }
                }
                i += 1;
            }
            match best {
                None => {
                    exhausted = true;
                },
                Some(b) => {
                    let ghost before = out@;
                    let ghost old_taken = taken@;
                    let ghost old_picked = picked;
                    out.push(copy_history_entry(&self.entries[b]));
                    taken.set(b, true);
                    proof {
                        picked = picked.push(b as int);
                        assert forall|m: int|
                            0 <= m < n && #[trigger] taken@[m] implies exists|j: int|
                                0 <= j < picked.len() && picked[j] == m by {
                            if m == b {
                                assert(picked[picked.len() - 1] == m);
                            } else {
                                assert(old_taken[m]);
                                let j = choose|j: int|
                                    0 <= j < old_picked.len() && old_picked[j] == m;
                                assert(picked[j] == m);
                            }
                        }
                        assert forall|j: int, l: int| 0 <= j < l < picked.len() implies picked[j]
                            != picked[l] by {
                            if l == picked.len() - 1 {
                                assert(picked[j] == old_picked[j]);
                                assert(old_taken[old_picked[j]]);
                            }
                        }
                        assert forall|j: int, l: int|
                            0 <= j < l < out@.len() implies ranks_before(
                            out@[j]@,
                            out@[l]@,
                        ) by {
                            if l == out@.len() - 1 {
                                assert(out@[l]@ == rows[b as int]);
                                assert(out@[j] == before[j]);
                            }
                        }
                    }
                },
            }
        }
        proof {
            let r = rows_of(out@);
            assert forall|j: int| 0 <= j < r.len() implies rows.contains(#[trigger] r[j]) && r[j].kind
                == PathKind::Dir by {
                assert(rows[picked[j]] == r[j]);
            }
            assert forall|j: int, l: int|
                #![trigger r[j], r[l]]
                0 <= j < l < r.len() implies r[j].path != r[l].path && ranks_before(r[j], r[l]) by {
                assert(picked[j] != picked[l]);
                assert(rows[picked[j]] == r[j]);
                assert(rows[picked[l]] == r[l]);
                if picked[j] < picked[l] {
                    assert(rows[picked[j]].path != rows[picked[l]].path);
                } else {
                    assert(rows[picked[l]].path != rows[picked[j]].path);
                }
            }
            assert forall|x: HistoryRow|
                rows.contains(x) && x.kind == PathKind::Dir && !r.contains(x) implies r.len()
                == limit && (forall|j: int| 0 <= j < r.len() ==> ranks_before(#[trigger] r[j], x)) by {
                let m = choose|m: int| 0 <= m < rows.len() && rows[m] == x;
                if taken@[m] {
                    let j = choose|j: int| 0 <= j < picked.len() && picked[j] == m;
                    assert(r[j] == x);
                }
                assert(!taken@[m]);
                assert forall|j: int| 0 <= j < r.len() implies ranks_before(#[trigger] r[j], x) by {
                    assert(ranks_before(out@[j]@, rows[m]));
                }
            }
        }
        out
    }
}

/// Recording an open leaves one row for the path, holding the new kind,
/// source and time and one open more than before (one for a new path);
/// every other row stays as it was, and no two rows share a path.
pub proof fn recording_updates_one_row(
    rows: Seq<HistoryRow>,
    path: Seq<char>,
    kind: PathKind,
    source: HistorySource,
    timestamp: int,
)
    requires
        paths_distinct(rows),
    ensures
        ({
            let after = recorded(rows, path, kind, source, timestamp);
            &&& paths_distinct(after)
            &&& has_path(after, path)
            &&& after[index_of_path(after, path)] == HistoryRow {
                path,
                kind,
                source,
                last_opened_at: timestamp,
                open_count: if has_path(rows, path) {
                    rows[index_of_path(rows, path)].open_count + 1
                } else {
                    1
                },
            }
            &&& forall|x: HistoryRow| x.path != path ==> (rows.contains(x) <==> after.contains(x))
        }),
{
    let after = recorded(rows, path, kind, source, timestamp);
    if has_path(rows, path) {
        let i = index_of_path(rows, path);
        assert(after[i].path == path);
        let c = index_of_path(after, path);
        assert(c == i) by {
            if c != i {
                assert(after[c] == rows[c]);
                if c < i {
                    assert(rows[c].path != rows[i].path);
                } else {
                    assert(rows[i].path != rows[c].path);
                }
            }
        }
        assert forall|x: HistoryRow| x.path != path implies (rows.contains(x) <==> after.contains(
            x,
        )) by {
            if rows.contains(x) {
                let k = choose|k: int| 0 <= k < rows.len() && rows[k] == x;
                assert(k != i);
                assert(after[k] == x);
            }
            if after.contains(x) {
                let k = choose|k: int| 0 <= k < after.len() && after[k] == x;
                assert(k != i);
                assert(rows[k] == x);
            }
        }
    } else {
        let i = rows.len() as int;
        assert(after[i].path == path);
        let c = index_of_path(after, path);
        assert(c == i) by {
            if c != i {
                assert(after[c] == rows[c]);
            }
        }
        assert forall|x: HistoryRow| x.path != path implies (rows.contains(x) <==> after.contains(
            x,
        )) by {
            if rows.contains(x) {
                let k = choose|k: int| 0 <= k < rows.len() && rows[k] == x;
                assert(after[k] == x);
            }
            if after.contains(x) {
                let k = choose|k: int| 0 <= k < after.len() && after[k] == x;
                assert(k != i);
                assert(rows[k] == x);
            }
        }
    }
}

/// A directory recorded later than every other row comes first among the
/// recent directories.
pub proof fn latest_directory_comes_first(
    rows: Seq<HistoryRow>,
    path: Seq<char>,
    source: HistorySource,
    timestamp: int,
    recent: Seq<HistoryRow>,
    limit: int,
)
    requires
        paths_distinct(rows),
        forall|i: int| 0 <= i < rows.len() && rows[i].path != path ==> rows[i].last_opened_at
            < timestamp,
        limit >= 1,
        is_recent_dirs(recent, recorded(rows, path, PathKind::Dir, source, timestamp), limit),
    ensures
        recent.len() >= 1,
        recent[0].path == path,
        recent[0].last_opened_at == timestamp,
{
    let after = recorded(rows, path, PathKind::Dir, source, timestamp);
    recording_updates_one_row(rows, path, PathKind::Dir, source, timestamp);
    let c = index_of_path(after, path);
    let x = after[c];
    assert(after.contains(x));
    assert forall|k: int| 0 <= k < after.len() && after[k].path != path implies after[k].last_opened_at
        < timestamp by {
        assert(rows.contains(after[k]) <==> after.contains(after[k]));
        assert(after.contains(after[k]));
        let i = choose|i: int| 0 <= i < rows.len() && rows[i] == after[k];
        assert(rows[i].path != path);
    }
    if !recent.contains(x) {
        assert(ranks_before(recent[0], x));
        assert(after.contains(recent[0]));
        let k = choose|k: int| 0 <= k < after.len() && after[k] == recent[0];
        assert(after[k].path != path);
    }
    let j = choose|j: int| 0 <= j < recent.len() && recent[j] == x;
    if j != 0 {
        assert(ranks_before(recent[0], recent[j]));
        assert(after.contains(recent[0]));
        let k = choose|k: int| 0 <= k < after.len() && after[k] == recent[0];
        assert(recent[0].path != recent[j].path);
        assert(after[k].path != path);
    }
}


/// Calls `dirs::data_dir`: the user's data directory, when the system names
/// one. Nothing is stated of the result: it depends on the environment.
#[verifier::external_body]
fn data_dir() -> (r: Option<String>) {
    dirs::data_dir().map(|p| p.to_string_lossy().into_owned())
}

/// The history database: `at/history.sqlite` under the user's data
/// directory (the current directory when the system names none).
pub fn default_history_path() -> (r: String)
    ensures
        exists|dir: Seq<char>| r@ == crate::config::at_file_under(dir, "history.sqlite"@),
{
    crate::config::at_file_path(data_dir(), "history.sqlite")
}

} // verus!
