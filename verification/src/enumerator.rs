//! The page set of one side, made from the listing of its directory.
//!
//! A listing counts only if every one of its entries could be accessed: a
//! page set with a silent gap would lead to misleading comparisons.

use crate::config::clone_path;
use crate::entry::{entry_views, PageEntry, PageEntryView, Side};
use std::path::PathBuf;
use vstd::prelude::*;

verus! {

/// One entry of a directory listing that could be accessed.
#[derive(Debug, PartialEq, Eq)]
pub struct Listed {
    /// File name of the entry.
    pub name: String,
    /// Location of the entry.
    pub path: PathBuf,
}

/// A page directory could not be listed in full.
#[derive(Clone, Copy, Debug, PartialEq, Eq, Structural)]
pub struct EnumerationError {
    /// The side whose directory was listed.
    pub side: Side,
    /// Position, in the listing, of the first entry that could not be
    /// accessed.
    pub position: usize,
}

/// Whether every entry of a listing could be accessed.
pub open spec fn fully_listed(listing: Seq<Option<Listed>>) -> bool {
    forall|i: int| 0 <= i < listing.len() ==> #[trigger] listing[i] is Some
}

/// Whether `position` holds the first entry that could not be accessed.
pub open spec fn is_first_gap(listing: Seq<Option<Listed>>, position: int) -> bool {
    &&& 0 <= position < listing.len()
    &&& listing[position] is None
    &&& forall|i: int| 0 <= i < position ==> #[trigger] listing[i] is Some
}

/// The page entries of a full listing of one side: one for each entry of the
/// listing, in the order of the listing.
pub open spec fn entries_of(listing: Seq<Option<Listed>>, side: Side) -> Seq<PageEntryView> {
    Seq::new(
        listing.len(),
        |i: int| PageEntryView { name: listing[i]->0.name@, path: listing[i]->0.path, side },
    )
}

/// Makes the page set of one side from the listing of its directory, in which
/// `None` stands for an entry that could not be accessed. There is a page set
/// exactly if there is no such entry; otherwise the error names the first.
pub fn collect_entries(listing: &Vec<Option<Listed>>, side: Side) -> (result: Result<
    Vec<PageEntry>,
    EnumerationError,
>)
    ensures
        result is Ok <==> fully_listed(listing@),
        match result {
            Ok(entries) => entry_views(entries@) == entries_of(listing@, side),
            Err(error) => error.side == side && is_first_gap(listing@, error.position as int),
        },
{
    let mut entries: Vec<PageEntry> = Vec::new();
    let mut i: usize = 0;
    while i < listing.len()
        invariant
            i <= listing.len(),
            entries@.len() == i,
            forall|k: int| 0 <= k < i ==> #[trigger] listing@[k] is Some,
            forall|k: int| 0 <= k < i ==> (#[trigger] entries@[k])@ == entries_of(listing@, side)[k],
        decreases listing.len() - i,
    {
        match &listing[i] {
            Some(listed) => {
                entries.push(
                    PageEntry {
                        name: listed.name.clone(),
                        path: clone_path(&listed.path),
                        side,
                    },
                );
            },
            None => {
                return Err(EnumerationError { side, position: i });
            },
        }
        i += 1;
    }
    Ok(entries)
}

/// Two full listings that hold the same entries, in whatever order each,
/// make page sets that hold the same entries.
pub proof fn lemma_entries_ignore_listing_order(
    first: Seq<Option<Listed>>,
    second: Seq<Option<Listed>>,
    side: Side,
)
    requires
        fully_listed(first),
        fully_listed(second),
        first.to_set() == second.to_set(),
    ensures
        entries_of(first, side).to_set() == entries_of(second, side).to_set(),
{
    lemma_entries_within(first, second, side);
    lemma_entries_within(second, first, side);
}

/// Where every entry of one listing occurs in another, every page of the
/// first occurs among the pages of the other.
proof fn lemma_entries_within(
    inner: Seq<Option<Listed>>,
    outer: Seq<Option<Listed>>,
    side: Side,
)
    requires
        inner.to_set().subset_of(outer.to_set()),
    ensures
        entries_of(inner, side).to_set().subset_of(entries_of(outer, side).to_set()),
{
    let pages = entries_of(inner, side);
    let others = entries_of(outer, side);
    assert forall|page: PageEntryView| pages.to_set().contains(page) implies others.to_set().contains(
        page,
    ) by {
        let i = choose|i: int| 0 <= i < pages.len() && pages[i] == page;
        assert(outer.to_set().contains(inner[i]));
        let j = choose|j: int| 0 <= j < outer.len() && outer[j] == inner[i];
        assert(others[j] == page);
    }
}

} // verus!
