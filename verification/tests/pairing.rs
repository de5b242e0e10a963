use portable_document_comparator::entry::{PageEntry, PagePair, Side};
use portable_document_comparator::matcher::{
    count_mismatch, find_by_name, match_pages, MismatchReport,
};
use std::path::PathBuf;

fn page(dir: &str, name: &str, side: Side) -> PageEntry {
    PageEntry::new(name, PathBuf::from(dir).join(name), side)
}

fn lefts(names: &[&str]) -> Vec<PageEntry> {
    names.iter().map(|n| page("out/left", n, Side::Left)).collect()
}

fn rights(names: &[&str]) -> Vec<PageEntry> {
    names.iter().map(|n| page("out/right", n, Side::Right)).collect()
}

fn names_of(pairs: &[PagePair]) -> Vec<String> {
    pairs.iter().map(|p| p.name().clone()).collect()
}

#[test]
fn new_entry_keeps_its_parts() {
    let e = PageEntry::new("001.png", PathBuf::from("out/left/001.png"), Side::Left);
    assert_eq!(e.name, "001.png");
    assert_eq!(e.path, PathBuf::from("out/left/001.png"));
    assert_eq!(e.side, Side::Left);
    assert_eq!(e.clone(), e);
}

#[test]
fn pair_is_made_only_of_equal_names() {
    let l = page("l", "001.png", Side::Left);
    let r = page("r", "001.png", Side::Right);
    let pair = PagePair::new(l.clone(), r.clone()).unwrap();
    assert_eq!(pair.left, l);
    assert_eq!(pair.right, r);
    assert_eq!(pair.name(), "001.png");
    assert_eq!(pair.clone(), pair);
    assert!(PagePair::new(l, page("r", "002.png", Side::Right)).is_none());
}

#[test]
fn same_name_is_exact() {
    let a = page("l", "page_001.png", Side::Left);
    assert!(a.same_name(&page("r", "page_001.png", Side::Right)));
    assert!(!a.same_name(&page("r", "page_1.png", Side::Right)));
    assert!(!a.same_name(&page("r", "PAGE_001.PNG", Side::Right)));
}

#[test]
fn equal_sets_pair_every_page_in_order() {
    let left = lefts(&["001.png", "002.png", "003.png"]);
    let right = rights(&["001.png", "002.png", "003.png"]);
    let pairs = match_pages(&left, &right);
    assert_eq!(names_of(&pairs), vec!["001.png", "002.png", "003.png"]);
    for (i, p) in pairs.iter().enumerate() {
        assert_eq!(p.left, left[i]);
        assert_eq!(p.right, right[i]);
    }
}

#[test]
fn pairs_follow_the_left_order_not_the_right_one() {
    let left = lefts(&["003.png", "001.png", "002.png"]);
    let right = rights(&["001.png", "002.png", "003.png"]);
    let pairs = match_pages(&left, &right);
    assert_eq!(names_of(&pairs), vec!["003.png", "001.png", "002.png"]);
    assert_eq!(pairs[0].right, right[2]);
    assert_eq!(pairs[1].right, right[0]);
    assert_eq!(pairs[2].right, right[1]);
}

#[test]
fn left_pages_without_partner_are_left_out() {
    let left = lefts(&["001.png", "002.png", "003.png"]);
    let right = rights(&["003.png", "001.png"]);
    let pairs = match_pages(&left, &right);
    assert_eq!(names_of(&pairs), vec!["001.png", "003.png"]);
    assert_eq!(pairs[0].left, left[0]);
    assert_eq!(pairs[0].right, right[1]);
    assert_eq!(pairs[1].left, left[2]);
    assert_eq!(pairs[1].right, right[0]);
}

#[test]
fn right_pages_without_partner_are_ignored() {
    let left = lefts(&["002.png"]);
    let right = rights(&["001.png", "002.png", "003.png"]);
    let pairs = match_pages(&left, &right);
    assert_eq!(pairs.len(), 1);
    assert_eq!(pairs[0].left, left[0]);
    assert_eq!(pairs[0].right, right[1]);
}

#[test]
fn matching_knows_no_fuzziness() {
    let left = lefts(&["page_001.png", "page_002.png", "Page_003.png", "page_004.png "]);
    let right = rights(&["page_1.png", "page_002.PNG", "page_003.png", "page_004.png", "page_001.png"]);
    let pairs = match_pages(&left, &right);
    assert_eq!(names_of(&pairs), vec!["page_001.png"]);
    assert_eq!(pairs[0].right, right[4]);
}

#[test]
fn the_first_right_page_of_a_name_is_the_partner() {
    let left = lefts(&["001.png"]);
    let right = vec![
        page("out/right", "002.png", Side::Right),
        page("out/right/a", "001.png", Side::Right),
        page("out/right/b", "001.png", Side::Right),
    ];
    let pairs = match_pages(&left, &right);
    assert_eq!(pairs.len(), 1);
    assert_eq!(pairs[0].right.path, PathBuf::from("out/right/a/001.png"));
}

#[test]
fn a_repeated_left_name_is_paired_each_time() {
    let left = lefts(&["001.png", "001.png"]);
    let right = rights(&["001.png"]);
    let pairs = match_pages(&left, &right);
    assert_eq!(names_of(&pairs), vec!["001.png", "001.png"]);
}

#[test]
fn empty_sides_give_no_pairs() {
    assert!(match_pages(&lefts(&[]), &rights(&["001.png"])).is_empty());
    assert!(match_pages(&lefts(&["001.png"]), &rights(&[])).is_empty());
    assert!(match_pages(&lefts(&[]), &rights(&[])).is_empty());
}

#[test]
fn find_by_name_gives_the_first_position() {
    let right = rights(&["a.png", "b.png", "a.png"]);
    assert_eq!(find_by_name(&right, &"a.png".to_string()), Some(0));
    assert_eq!(find_by_name(&right, &"b.png".to_string()), Some(1));
    assert_eq!(find_by_name(&right, &"c.png".to_string()), None);
    assert_eq!(find_by_name(&right, &"A.png".to_string()), None);
    assert_eq!(find_by_name(&rights(&[]), &"a.png".to_string()), None);
}

#[test]
fn counts_differ_exactly_when_lengths_differ() {
    let three = lefts(&["001.png", "002.png", "003.png"]);
    let two = rights(&["001.png", "002.png"]);
    assert_eq!(
        count_mismatch(&three, &two),
        Some(MismatchReport { left_count: 3, right_count: 2 })
    );
    assert_eq!(
        count_mismatch(&lefts(&[]), &two),
        Some(MismatchReport { left_count: 0, right_count: 2 })
    );
    assert_eq!(count_mismatch(&lefts(&["a", "b"]), &two), None);
    assert_eq!(count_mismatch(&lefts(&[]), &rights(&[])), None);
}

#[test]
fn equal_counts_do_not_differ_even_without_a_common_name() {
    let left = lefts(&["a.png", "b.png"]);
    let right = rights(&["c.png", "d.png"]);
    assert_eq!(count_mismatch(&left, &right), None);
    assert!(match_pages(&left, &right).is_empty());
}

#[test]
fn counts_can_differ_although_every_left_page_has_a_partner() {
    let left = lefts(&["001.png", "002.png"]);
    let right = rights(&["002.png", "001.png", "001.png"]);
    assert_eq!(
        count_mismatch(&left, &right),
        Some(MismatchReport { left_count: 2, right_count: 3 })
    );
    assert_eq!(match_pages(&left, &right).len(), 2);
}
