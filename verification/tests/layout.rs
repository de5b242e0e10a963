use portable_document_comparator::enumerator::{collect_entries, EnumerationError, Listed};
use portable_document_comparator::entry::{PageEntry, Side};
use portable_document_comparator::layout::{
    check_clearable, check_input, check_output_root, dirs_are_empty, first_irregular,
    ConfigurationError, EntryKind, OutputDir, PathState, SetupError,
};
use std::path::PathBuf;

use EntryKind::{Other, Regular};

#[test]
fn directories_are_empty_only_if_all_three_are() {
    assert!(dirs_are_empty(0, 0, 0));
    assert!(!dirs_are_empty(1, 0, 0));
    assert!(!dirs_are_empty(0, 1, 0));
    assert!(!dirs_are_empty(0, 0, 1));
    assert!(!dirs_are_empty(3, 2, 2));
    assert!(!dirs_are_empty(usize::MAX, 0, 0));
}

#[test]
fn first_irregular_entry_is_found() {
    assert_eq!(first_irregular(&vec![]), None);
    assert_eq!(first_irregular(&vec![Regular, Regular]), None);
    assert_eq!(first_irregular(&vec![Other]), Some(0));
    assert_eq!(first_irregular(&vec![Regular, Other, Regular, Other]), Some(1));
    assert_eq!(first_irregular(&vec![Regular, Regular, Other]), Some(2));
}

#[test]
fn regular_files_may_be_cleared() {
    assert_eq!(check_clearable(&vec![], &vec![], &vec![]), Ok(()));
    assert_eq!(check_clearable(&vec![Regular], &vec![Regular, Regular], &vec![]), Ok(()));
}

#[test]
fn anything_else_is_a_configuration_error() {
    assert_eq!(
        check_clearable(&vec![Regular, Other], &vec![Other], &vec![Other]),
        Err(ConfigurationError { directory: OutputDir::Left, position: 1 })
    );
    assert_eq!(
        check_clearable(&vec![Regular], &vec![Regular, Regular, Other], &vec![Other]),
        Err(ConfigurationError { directory: OutputDir::Right, position: 2 })
    );
    assert_eq!(
        check_clearable(&vec![Regular], &vec![], &vec![Other, Other]),
        Err(ConfigurationError { directory: OutputDir::Diff, position: 0 })
    );
}

fn listed(name: &str) -> Option<Listed> {
    Some(Listed { name: name.to_string(), path: PathBuf::from("out/left").join(name) })
}

#[test]
fn a_full_listing_becomes_the_page_set() {
    let listing = vec![listed("002.png"), listed("001.png")];
    let entries = collect_entries(&listing, Side::Left).unwrap();
    assert_eq!(
        entries,
        vec![
            PageEntry::new("002.png", PathBuf::from("out/left/002.png"), Side::Left),
            PageEntry::new("001.png", PathBuf::from("out/left/001.png"), Side::Left),
        ]
    );
    let again = collect_entries(&listing, Side::Left).unwrap();
    assert_eq!(again, entries);
    let right = collect_entries(&listing, Side::Right).unwrap();
    assert!(right.iter().all(|e| e.side == Side::Right));
}

#[test]
fn an_empty_listing_is_an_empty_page_set() {
    assert_eq!(collect_entries(&vec![], Side::Right), Ok(vec![]));
}

#[test]
fn one_inaccessible_entry_fails_the_whole_listing() {
    let listing = vec![listed("001.png"), None, listed("003.png"), None];
    assert_eq!(
        collect_entries(&listing, Side::Right),
        Err(EnumerationError { side: Side::Right, position: 1 })
    );
    assert_eq!(
        collect_entries(&vec![None], Side::Left),
        Err(EnumerationError { side: Side::Left, position: 0 })
    );
}

#[test]
fn listing_order_does_not_change_the_set_of_pages() {
    let one = collect_entries(&vec![listed("a"), listed("b"), listed("c")], Side::Left).unwrap();
    let other = collect_entries(&vec![listed("c"), listed("a"), listed("b")], Side::Left).unwrap();
    assert_eq!(one.len(), other.len());
    assert!(one.iter().all(|e| other.contains(e)));
    assert!(other.iter().all(|e| one.contains(e)));
}

#[test]
fn an_input_document_has_to_be_a_regular_file() {
    assert_eq!(check_input(Side::Left, PathState::RegularFile), Ok(()));
    assert_eq!(check_input(Side::Right, PathState::RegularFile), Ok(()));
    assert_eq!(
        check_input(Side::Left, PathState::Unchecked),
        Err(SetupError::InputUnchecked(Side::Left))
    );
    assert_eq!(
        check_input(Side::Right, PathState::Missing),
        Err(SetupError::InputMissing(Side::Right))
    );
    assert_eq!(
        check_input(Side::Left, PathState::Directory),
        Err(SetupError::InputNotRegular(Side::Left))
    );
    assert_eq!(
        check_input(Side::Right, PathState::Special),
        Err(SetupError::InputNotRegular(Side::Right))
    );
}

#[test]
fn the_output_root_is_a_directory_or_missing() {
    assert_eq!(check_output_root(PathState::Directory), Ok(()));
    assert_eq!(check_output_root(PathState::Missing), Ok(()));
    assert_eq!(check_output_root(PathState::Unchecked), Err(SetupError::OutputUnchecked));
    assert_eq!(check_output_root(PathState::RegularFile), Err(SetupError::OutputNotDirectory));
    assert_eq!(check_output_root(PathState::Special), Err(SetupError::OutputNotDirectory));
}
