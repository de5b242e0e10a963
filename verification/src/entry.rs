//! Page entries and matched page pairs.

use crate::config::clone_path;
use std::path::PathBuf;
use vstd::prelude::*;

verus! {

/// The side of a comparison that a page belongs to.
#[derive(Clone, Copy, Debug, PartialEq, Eq, Structural)]
pub enum Side {
    Left,
    Right,
}

/// One rendered page image on one side of the comparison.
#[derive(Debug, PartialEq, Eq)]
pub struct PageEntry {
    /// File name of the page image: the only key by which pages correspond.
    pub name: String,
    /// Location of the page image.
    pub path: PathBuf,
    /// The side that the page was enumerated on.
    pub side: Side,
}

/// What a `PageEntry` stands for in contracts.
pub struct PageEntryView {
    pub name: Seq<char>,
    pub path: PathBuf,
    pub side: Side,
}

impl View for PageEntry {
    type V = PageEntryView;

    open spec fn view(&self) -> PageEntryView {
        PageEntryView { name: self.name@, path: self.path, side: self.side }
    }
}

/// The views of a sequence of entries, in the same order.
pub open spec fn entry_views(entries: Seq<PageEntry>) -> Seq<PageEntryView> {
    Seq::new(entries.len(), |i: int| entries[i]@)
}

/// The names of a sequence of entries, in the same order.
pub open spec fn entry_names(entries: Seq<PageEntryView>) -> Seq<Seq<char>> {
    Seq::new(entries.len(), |i: int| entries[i].name)
}

impl PageEntry {
    /// Makes an entry from a file name, a location and a side.
    pub fn new(name: &str, path: PathBuf, side: Side) -> (entry: PageEntry)
        ensures
            entry@ == (PageEntryView { name: name@, path, side }),
    {
        PageEntry { name: name.to_owned(), path, side }
    }

    /// Whether this entry and `other` carry exactly the same file name.
    pub fn same_name(&self, other: &PageEntry) -> (same: bool)
        ensures
            same == (self@.name == other@.name),
    {
        self.name == other.name
    }
}

impl Clone for PageEntry {
    fn clone(&self) -> (copy: PageEntry)
        ensures
            copy@ == self@,
    {
        PageEntry { name: self.name.clone(), path: clone_path(&self.path), side: self.side }
    }
}

/// A left page and a right page that share one file name.
#[derive(Debug, PartialEq, Eq)]
pub struct PagePair {
    pub left: PageEntry,
    pub right: PageEntry,
}

/// What a `PagePair` stands for in contracts.
pub struct PagePairView {
    pub left: PageEntryView,
    pub right: PageEntryView,
}

impl PagePairView {
    /// The invariant of a pair: both names are equal, character by character.
    pub open spec fn wf(self) -> bool {
        self.left.name == self.right.name
    }

    /// The file name that both pages carry.
    pub open spec fn name(self) -> Seq<char> {
        self.left.name
    }
}

impl View for PagePair {
    type V = PagePairView;

    open spec fn view(&self) -> PagePairView {
        PagePairView { left: self.left@, right: self.right@ }
    }
}

/// The views of a sequence of pairs, in the same order.
pub open spec fn pair_views(pairs: Seq<PagePair>) -> Seq<PagePairView> {
    Seq::new(pairs.len(), |i: int| pairs[i]@)
}

impl PagePair {
    /// Pairs two entries if their names are equal, and only then.
    pub fn new(left: PageEntry, right: PageEntry) -> (pair: Option<PagePair>)
        ensures
            pair is Some <==> left@.name == right@.name,
            pair is Some ==> pair->0@ == (PagePairView { left: left@, right: right@ }),
            pair is Some ==> pair->0@.wf(),
    {
        if left.same_name(&right) {
            Some(PagePair { left, right })
        } else {
            None
        }
    }

    /// The file name that both pages carry.
    pub fn name(&self) -> (name: &String)
        ensures
            name@ == self@.name(),
    {
        &self.left.name
    }
}

impl Clone for PagePair {
    fn clone(&self) -> (copy: PagePair)
        ensures
            copy@ == self@,
    {
        PagePair { left: self.left.clone(), right: self.right.clone() }
    }
}

} // verus!
