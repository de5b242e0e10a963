//! Pairing of the pages of the two sides by file name, and the page-count
//! discrepancy between them.

use crate::entry::{entry_views, pair_views, PageEntry, PageEntryView, PagePair, PagePairView};
use vstd::prelude::*;

verus! {

/// Whether some entry carries exactly the file name `name`.
pub open spec fn has_name(entries: Seq<PageEntryView>, name: Seq<char>) -> bool {
    exists|j: int| 0 <= j < entries.len() && #[trigger] entries[j].name == name
}

/// Whether `j` is the position of the first entry that carries `name`.
pub open spec fn is_first_named(entries: Seq<PageEntryView>, name: Seq<char>, j: int) -> bool {
    &&& 0 <= j < entries.len()
    &&& entries[j].name == name
    &&& forall|k: int| 0 <= k < j ==> #[trigger] entries[k].name != name
}

/// The position of the first entry that carries `name`; the length of
/// `entries` where none does.
pub open spec fn first_named(entries: Seq<PageEntryView>, name: Seq<char>) -> int
    decreases entries.len(),
{
    if entries.len() == 0 {
        0
    } else if entries[0].name == name {
        0
    } else {
        1 + first_named(entries.drop_first(), name)
    }
}

/// The partner of a left entry: the first right entry of the same name.
pub open spec fn partner(right: Seq<PageEntryView>, name: Seq<char>) -> PageEntryView
    recommends
        has_name(right, name),
{
    right[first_named(right, name)]
}

/// Whether a left entry takes part in the comparison: its name occurs on the
/// right.
pub open spec fn is_matched(right: Seq<PageEntryView>) -> spec_fn(PageEntryView) -> bool {
    |entry: PageEntryView| has_name(right, entry.name)
}

/// A left entry together with its partner.
pub open spec fn paired_with(right: Seq<PageEntryView>) -> spec_fn(PageEntryView) -> PagePairView {
    |entry: PageEntryView| PagePairView { left: entry, right: partner(right, entry.name) }
}

/// The left entries that have a partner, in the order of the left enumeration.
pub open spec fn matched_lefts(left: Seq<PageEntryView>, right: Seq<PageEntryView>) -> Seq<
    PageEntryView,
> {
    left.filter(is_matched(right))
}

/// The pairs of two enumerations: each left entry whose name occurs on the
/// right, in the order of the left enumeration, with its partner. Left entries
/// without a partner are left out.
pub open spec fn pairing(left: Seq<PageEntryView>, right: Seq<PageEntryView>) -> Seq<PagePairView> {
    matched_lefts(left, right).map_values(paired_with(right))
}

/// `first_named` is the least position that carries the name, and the length
/// exactly where no position does.
pub proof fn lemma_first_named(entries: Seq<PageEntryView>, name: Seq<char>)
    ensures
        0 <= first_named(entries, name) <= entries.len(),
        forall|k: int| 0 <= k < first_named(entries, name) ==> #[trigger] entries[k].name != name,
        has_name(entries, name) <==> first_named(entries, name) < entries.len(),
        has_name(entries, name) ==> is_first_named(entries, name, first_named(entries, name)),
    decreases entries.len(),
{
    if entries.len() > 0 && entries[0].name != name {
        let rest = entries.drop_first();
        lemma_first_named(rest, name);
        assert forall|k: int| 0 <= k < 1 + first_named(rest, name) implies #[trigger] entries[k].name
            != name by {
            if k > 0 {
                assert(rest[k - 1].name != name);
            }
        }
    }
}

/// A position that meets `is_first_named` is the one that `first_named` gives.
pub proof fn lemma_first_named_unique(entries: Seq<PageEntryView>, name: Seq<char>, j: int)
    requires
        is_first_named(entries, name, j),
    ensures
        has_name(entries, name),
        first_named(entries, name) == j,
{
    lemma_first_named(entries, name);
}

/// What one more left entry adds to the pairs: itself with its partner if its
/// name occurs on the right, nothing otherwise.
pub proof fn lemma_pairing_push(
    left: Seq<PageEntryView>,
    right: Seq<PageEntryView>,
    entry: PageEntryView,
)
    ensures
        pairing(left.push(entry), right) == if has_name(right, entry.name) {
            pairing(left, right).push(
                PagePairView { left: entry, right: partner(right, entry.name) },
            )
        } else {
            pairing(left, right)
        },
{
    reveal(Seq::filter);
    let longer = left.push(entry);
    assert(longer.drop_last() =~= left);
    if has_name(right, entry.name) {
        assert(pairing(longer, right) =~= pairing(left, right).push(
            PagePairView { left: entry, right: partner(right, entry.name) },
        ));
    }
}

/// Position of the first entry named `name`, if there is one.
pub fn find_by_name(entries: &Vec<PageEntry>, name: &String) -> (found: Option<usize>)
    ensures
        found is Some <==> has_name(entry_views(entries@), name@),
        found is Some ==> found->0 == first_named(entry_views(entries@), name@),
        found is Some ==> found->0 < entries.len(),
{
    let ghost views = entry_views(entries@);
    let mut j: usize = 0;
    while j < entries.len()
        invariant
            j <= entries.len(),
            views == entry_views(entries@),
            forall|k: int| 0 <= k < j ==> #[trigger] views[k].name != name@,
        decreases entries.len() - j,
    {
        if entries[j].name == *name {
            proof {
                lemma_first_named_unique(views, name@, j as int);
            }
            return Some(j);
        }
        j += 1;
    }
    None
}

/// Pairs every left entry whose name occurs on the right with the first right
/// entry of that name, in the order of the left enumeration.
pub fn match_pages(left: &Vec<PageEntry>, right: &Vec<PageEntry>) -> (pairs: Vec<PagePair>)
    ensures
        pair_views(pairs@) == pairing(entry_views(left@), entry_views(right@)),
{
    let ghost lv = entry_views(left@);
    let ghost rv = entry_views(right@);
    let mut pairs: Vec<PagePair> = Vec::new();
    let mut i: usize = 0;
    proof {
        reveal(Seq::filter);
    }
    while i < left.len()
        invariant
            i <= left.len(),
            lv == entry_views(left@),
            rv == entry_views(right@),
            pair_views(pairs@) == pairing(lv.take(i as int), rv),
        decreases left.len() - i,
    {
        proof {
            assert(lv.take(i + 1) =~= lv.take(i as int).push(lv[i as int]));
            lemma_pairing_push(lv.take(i as int), rv, lv[i as int]);
        }
        match find_by_name(right, &left[i].name) {
            Some(j) => {
                pairs.push(PagePair { left: left[i].clone(), right: right[j].clone() });
            },
            None => {},
        }
        i += 1;
    }
    assert(lv.take(left.len() as int) =~= lv);
    pairs
}

/// The positions in the left enumeration of the entries that have a partner,
/// in rising order.
pub open spec fn matched_positions(left: Seq<PageEntryView>, right: Seq<PageEntryView>) -> Seq<int>
    decreases left.len(),
{
    if left.len() == 0 {
        Seq::empty()
    } else {
        let before = matched_positions(left.drop_last(), right);
        if has_name(right, left.last().name) {
            before.push(left.len() - 1)
        } else {
            before
        }
    }
}

/// Pairing keeps the order of the left enumeration: the pairs are the left
/// entries at the matched positions, which rise strictly, and a position is
/// among them exactly if the name of its entry occurs on the right.
pub proof fn lemma_pairing_follows_left_order(left: Seq<PageEntryView>, right: Seq<PageEntryView>)
    ensures
        matched_positions(left, right).len() == pairing(left, right).len(),
        forall|i: int|
            0 <= i < pairing(left, right).len() ==> {
                &&& 0 <= #[trigger] matched_positions(left, right)[i] < left.len()
                &&& pairing(left, right)[i].left == left[matched_positions(left, right)[i]]
            },
        forall|i: int, j: int|
            0 <= i < j < pairing(left, right).len() ==> #[trigger] matched_positions(left, right)[i]
                < #[trigger] matched_positions(left, right)[j],
        forall|k: int|
            0 <= k < left.len() ==> (has_name(right, #[trigger] left[k].name)
                <==> matched_positions(left, right).contains(k)),
    decreases left.len(),
{
    if left.len() > 0 {
        let shorter = left.drop_last();
        let entry = left.last();
        lemma_pairing_follows_left_order(shorter, right);
        assert(shorter.push(entry) =~= left);
        lemma_pairing_push(shorter, right, entry);
        let earlier = matched_positions(shorter, right);
        let positions = matched_positions(left, right);
        assert forall|k: int| 0 <= k < left.len() implies (has_name(right, #[trigger] left[k].name)
            <==> positions.contains(k)) by {
            if k < shorter.len() {
                if earlier.contains(k) {
                    let i = choose|i: int| 0 <= i < earlier.len() && earlier[i] == k;
                    assert(positions[i] == k);
                }
            } else if has_name(right, entry.name) {
                assert(positions[positions.len() - 1] == k);
            }
        }
    } else {
        reveal(Seq::filter);
    }
}

/// Pairing is exact by name: a pair joins a left entry with the first right
/// entry that carries the very same name, and with no other.
pub proof fn lemma_pairs_are_name_exact(
    left: Seq<PageEntryView>,
    right: Seq<PageEntryView>,
    i: int,
)
    requires
        0 <= i < pairing(left, right).len(),
    ensures
        pairing(left, right)[i].wf(),
        left.contains(pairing(left, right)[i].left),
        is_first_named(
            right,
            pairing(left, right)[i].left.name,
            first_named(right, pairing(left, right)[i].left.name),
        ),
        pairing(left, right)[i].right == right[first_named(
            right,
            pairing(left, right)[i].left.name,
        )],
{
    lemma_pairing_follows_left_order(left, right);
    let k = matched_positions(left, right)[i];
    lemma_first_named(right, left[k].name);
}

/// A left entry is compared exactly if a right entry carries its very name.
pub proof fn lemma_paired_iff_named(left: Seq<PageEntryView>, right: Seq<PageEntryView>, k: int)
    requires
        0 <= k < left.len(),
    ensures
        has_name(right, left[k].name) <==> exists|i: int|
            0 <= i < pairing(left, right).len() && matched_positions(left, right)[i] == k
                && #[trigger] pairing(left, right)[i].left == left[k],
{
    lemma_pairing_follows_left_order(left, right);
}

/// Where every left name occurs on the right, every left entry is paired,
/// each at its own position.
pub proof fn lemma_full_pairing(left: Seq<PageEntryView>, right: Seq<PageEntryView>)
    requires
        forall|k: int| 0 <= k < left.len() ==> has_name(right, #[trigger] left[k].name),
    ensures
        pairing(left, right).len() == left.len(),
        forall|k: int| 0 <= k < left.len() ==> (#[trigger] pairing(left, right)[k]).left == left[k],
    decreases left.len(),
{
    if left.len() > 0 {
        let shorter = left.drop_last();
        let entry = left.last();
        lemma_full_pairing(shorter, right);
        assert(shorter.push(entry) =~= left);
        lemma_pairing_push(shorter, right, entry);
    } else {
        reveal(Seq::filter);
    }
}

/// A discrepancy between the page counts of the two sides.
#[derive(Clone, Copy, Debug, PartialEq, Eq, Structural)]
pub struct MismatchReport {
    /// Number of pages enumerated on the left.
    pub left_count: usize,
    /// Number of pages enumerated on the right.
    pub right_count: usize,
}

/// The discrepancy between two enumerations of the given lengths: there is
/// one exactly if the lengths differ, whatever the names are.
pub open spec fn mismatch_of(left_count: nat, right_count: nat) -> Option<MismatchReport> {
    if left_count != right_count {
        Some(MismatchReport { left_count: left_count as usize, right_count: right_count as usize })
    } else {
        None
    }
}

/// Compares the page counts of the two sides. The result depends on the two
/// counts alone: sides of equal length never differ here, even where no name
/// of one occurs on the other.
pub fn count_mismatch(left: &Vec<PageEntry>, right: &Vec<PageEntry>) -> (report: Option<
    MismatchReport,
>)
    ensures
        report == mismatch_of(left@.len(), right@.len()),
{
    if left.len() != right.len() {
        Some(MismatchReport { left_count: left.len(), right_count: right.len() })
    } else {
        None
    }
}

} // verus!
