//! The palette: a list of items with one selected, a query and a filter.

use vstd::prelude::*;

use crate::path_display::{display_path, displayed};
use crate::search::SearchFilter;

verus! {

/// What a palette row stands for.
#[derive(Debug, Clone, Copy, PartialEq, Eq, Structural)]
pub enum PaletteItemKind {
    Menu,
    Dir,
    File,
}

/// One row of a palette.
#[derive(Debug, Clone, PartialEq, Eq)]
pub struct PaletteItem {
    pub label: String,
    pub path: Option<String>,
    pub kind: PaletteItemKind,
    pub source: String,
}

impl PaletteItem {
    /// A menu row that shows `label` and opens no path.
    pub fn menu(label: &str) -> (r: Self)
        ensures
            r.label@ == label@,
            r.path is None,
            r.kind == PaletteItemKind::Menu,
            r.source@ == "menu"@,
    {
        PaletteItem {
            label: label.to_owned(),
            path: None,
            kind: PaletteItemKind::Menu,
            source: "menu".to_owned(),
        }
    }

    /// A directory row for `path`, found by `source`.
    pub fn dir(path: String, source: &str) -> (r: Self)
        ensures
            r.label@ == path@,
            r.path matches Some(p) && p@ == path@,
            r.kind == PaletteItemKind::Dir,
            r.source@ == source@,
    {
        PaletteItem {
            label: path.clone(),
            path: Some(path),
            kind: PaletteItemKind::Dir,
            source: source.to_owned(),
        }
    }

    /// A file row for `path`, found by `source`.
    pub fn file(path: String, source: &str) -> (r: Self)
        ensures
            r.label@ == path@,
            r.path matches Some(p) && p@ == path@,
            r.kind == PaletteItemKind::File,
            r.source@ == source@,
    {
        PaletteItem {
            label: path.clone(),
            path: Some(path),
            kind: PaletteItemKind::File,
            source: source.to_owned(),
        }
    }
}

/// A palette: the typed query, the items, the selected row (which may lie
/// past the end; it is clamped when read), whether the selected path is
/// shown whole, and the kind filter.
#[derive(Debug, Clone, PartialEq, Eq)]
pub struct PaletteState {
    pub query: String,
    pub items: Vec<PaletteItem>,
    pub selected: usize,
    pub expanded: bool,
    pub filter: SearchFilter,
}

/// The row a palette of `len` items has selected: none when it is empty,
/// else `selected` clamped to the last row.
pub open spec fn clamped_index(len: nat, selected: usize) -> Option<usize> {
    if len == 0 {
        None
    } else if selected < len {
        Some(selected)
    } else {
        Some((len - 1) as usize)
    }
}

/// The selection after moving down: one row further, but not past the last.
pub open spec fn index_after_down(len: nat, selected: usize) -> usize {
    match clamped_index(len, selected) {
        Some(s) => if s + 1 < len {
            (s + 1) as usize
        } else {
            s
        },
        None => selected,
    }
}

/// The selection after moving up: one row back, but not before the first.
pub open spec fn index_after_up(len: nat, selected: usize) -> usize {
    match clamped_index(len, selected) {
        Some(s) => if s > 0 {
            (s - 1) as usize
        } else {
            0
        },
        None => selected,
    }
}

/// The filter that follows `f`: all, then dirs, then files, then all again.
pub open spec fn next_filter(f: SearchFilter) -> SearchFilter {
    match f {
        SearchFilter::All => SearchFilter::Dirs,
        SearchFilter::Dirs => SearchFilter::Files,
        SearchFilter::Files => SearchFilter::All,
    }
}

/// The text a row shows for `item`: its path, whole or clipped, or its
/// label when it has no path.
pub open spec fn item_text(item: PaletteItem, expanded: bool, width: nat) -> Seq<char> {
    match item.path {
        Some(p) => displayed(p@, expanded, width),
        None => item.label@,
    }
}

/// The palette after moving down.
pub open spec fn moved_down(s: PaletteState) -> PaletteState {
    PaletteState {
        selected: index_after_down(s.items@.len(), s.selected),
        expanded: if s.items@.len() > 0 {
            false
        } else {
            s.expanded
        },
        ..s
    }
}

/// The palette after moving up.
pub open spec fn moved_up(s: PaletteState) -> PaletteState {
    PaletteState {
        selected: index_after_up(s.items@.len(), s.selected),
        expanded: if s.items@.len() > 0 {
            false
        } else {
            s.expanded
        },
        ..s
    }
}

/// The palette with the selected path shown whole or clipped the other way.
pub open spec fn toggled(s: PaletteState) -> PaletteState {
    PaletteState { expanded: !s.expanded, ..s }
}

/// The palette with the next filter.
pub open spec fn filter_cycled(s: PaletteState) -> PaletteState {
    PaletteState { filter: next_filter(s.filter), ..s }
}

impl PaletteState {
    pub fn new(items: Vec<PaletteItem>) -> (r: Self)
        ensures
            r.query@ == Seq::<char>::empty(),
            r.items@ == items@,
            r.selected == 0,
            !r.expanded,
            r.filter == SearchFilter::All,
    {
        PaletteState {
            query: String::new(),
            items,
            selected: 0,
            expanded: false,
            filter: SearchFilter::All,
        }
    }

    pub fn selected_index(&self) -> (r: Option<usize>)
        ensures
            r == clamped_index(self.items@.len(), self.selected),
    {
        if self.items.len() == 0 {
            None
        } else if self.selected < self.items.len() {
            Some(self.selected)
        } else {
            Some(self.items.len() - 1)
        }
    }

    pub fn selected_item(&self) -> (r: Option<&PaletteItem>)
        ensures
            match clamped_index(self.items@.len(), self.selected) {
                Some(i) => r == Some(&self.items@[i as int]),
                None => r is None,
            },
    {
        match self.selected_index() {
            Some(i) => Some(&self.items[i]),
            None => None,
        }
    }

    /// Moves the selection one row down, stopping at the last row, and
    /// collapses the expanded path; an empty palette is left as it is.
    pub fn move_down(&mut self)
        ensures
            *final(self) == moved_down(*old(self)),
    {
        if let Some(selected) = self.selected_index() {
            let n = self.items.len();
            self.selected = if selected < n - 1 {
                selected + 1
            } else {
                selected
            };
            self.expanded = false;
        }
    }

    /// Moves the selection one row up, stopping at the first row, and
    /// collapses the expanded path; an empty palette is left as it is.
    pub fn move_up(&mut self)
        ensures
            *final(self) == moved_up(*old(self)),
    {
        if let Some(selected) = self.selected_index() {
            self.selected = if selected > 0 {
                selected - 1
            } else {
                0
            };
            self.expanded = false;
        }
    }

    pub fn toggle_expanded(&mut self)
        ensures
            *final(self) == toggled(*old(self)),
    {
        self.expanded = !self.expanded;
    }

    pub fn cycle_filter(&mut self)
        ensures
            *final(self) == filter_cycled(*old(self)),
    {
        self.filter = match self.filter {
            SearchFilter::All => SearchFilter::Dirs,
            SearchFilter::Dirs => SearchFilter::Files,
            SearchFilter::Files => SearchFilter::All,
        };
    }

    /// Puts `items` in place, with the first row selected and collapsed.
    pub fn replace_items(&mut self, items: Vec<PaletteItem>)
        ensures
            final(self).items@ == items@,
            final(self).selected == 0,
            !final(self).expanded,
            final(self).query == old(self).query,
            final(self).filter == old(self).filter,
    {
        self.items = items;
        self.selected = 0;
        self.expanded = false;
    }

    /// The text of row `index`, shown whole only when that row is the
    /// selected one and the palette is expanded; none past the end.
    pub fn display_label_at(&self, index: usize, width: usize) -> (r: Option<String>)
        ensures
            match r {
                Some(t) => index < self.items@.len() && t@ == item_text(
                    self.items@[index as int],
                    self.expanded && clamped_index(self.items@.len(), self.selected) == Some(
                        index,
                    ),
                    width as nat,
                ),
                None => index >= self.items@.len(),
            },
    {
        if index >= self.items.len() {
            return None;
        }
        let is_selected = match self.selected_index() {
            Some(s) => s == index,
            None => false,
        };
        Some(format_item_label(&self.items[index], self.expanded && is_selected, width))
    }

    /// The text of `item` as an unselected row shows it.
    pub fn display_label(&self, item: &PaletteItem, width: usize) -> (r: String)
        ensures
            r@ == item_text(*item, false, width as nat),
    {
        format_item_label(item, false, width)
    }
}

fn format_item_label(item: &PaletteItem, expanded: bool, width: usize) -> (r: String)
    ensures
        r@ == item_text(*item, expanded, width as nat),
{
    match &item.path {
        Some(path) => display_path(path.as_str(), expanded, width),
        None => item.label.clone(),
    }
}

/// Three turns of the filter bring it back to where it was.
pub proof fn filter_cycle_has_period_three(f: SearchFilter)
    ensures
        next_filter(next_filter(next_filter(f))) == f,
        next_filter(f) != f,
{
}

/// Moving down and then up comes back to the row that was selected, unless
/// it was the last one, where moving down stays put.
pub proof fn down_then_up_returns(len: nat, selected: usize)
    requires
        selected + 1 < len,
        len <= usize::MAX,
    ensures
        index_after_up(len, index_after_down(len, selected)) == selected,
{
}

/// Moving up and then down comes back to the row that was selected, unless
/// it was the first one.
pub proof fn up_then_down_returns(len: nat, selected: usize)
    requires
        0 < selected < len,
    ensures
        index_after_down(len, index_after_up(len, selected)) == selected,
{
}

/// Whatever the moves, a non-empty palette selects a row it has.
pub proof fn moves_stay_in_range(len: nat, selected: usize)
    requires
        len > 0,
    ensures
        index_after_down(len, selected) < len,
        index_after_up(len, selected) < len,
{
}

} // verus!
