//! What a run finds on disk before it starts: whether its inputs are there,
//! whether its output directories are empty, and whether they may be
//! cleared.
//!
//! Each of the three output directories holds regular files only, side by
//! side. Anything else in one of them is a configuration error: it is
//! reported before anything is removed.

use crate::entry::Side;
use vstd::prelude::*;

verus! {

/// What an entry of an output directory is.
#[derive(Clone, Copy, Debug, PartialEq, Eq, Structural)]
pub enum EntryKind {
    /// A regular file.
    Regular,
    /// A directory, a link, a device or anything else.
    Other,
}

/// One of the three output directories.
#[derive(Clone, Copy, Debug, PartialEq, Eq, Structural)]
pub enum OutputDir {
    /// The page images of the left document.
    Left,
    /// The page images of the right document.
    Right,
    /// The difference images.
    Diff,
}

/// An output directory holds something that is not a regular file.
#[derive(Clone, Copy, Debug, PartialEq, Eq, Structural)]
pub struct ConfigurationError {
    /// The directory that holds it.
    pub directory: OutputDir,
    /// Its position in the listing of that directory.
    pub position: usize,
}

/// Whether all three output directories are empty, given the number of
/// entries found in each.
pub fn dirs_are_empty(left_entries: usize, right_entries: usize, diff_entries: usize) -> (empty:
    bool)
    ensures
        empty == (left_entries == 0 && right_entries == 0 && diff_entries == 0),
{
    left_entries == 0 && right_entries == 0 && diff_entries == 0
}

/// Whether every entry is a regular file.
pub open spec fn all_regular(kinds: Seq<EntryKind>) -> bool {
    forall|i: int| 0 <= i < kinds.len() ==> #[trigger] kinds[i] == EntryKind::Regular
}

/// Whether `position` holds the first entry that is not a regular file.
pub open spec fn is_first_irregular(kinds: Seq<EntryKind>, position: int) -> bool {
    &&& 0 <= position < kinds.len()
    &&& kinds[position] != EntryKind::Regular
    &&& forall|i: int| 0 <= i < position ==> #[trigger] kinds[i] == EntryKind::Regular
}

/// Position of the first entry that is not a regular file, if there is one.
pub fn first_irregular(kinds: &Vec<EntryKind>) -> (found: Option<usize>)
    ensures
        match found {
            Some(position) => is_first_irregular(kinds@, position as int),
            None => all_regular(kinds@),
        },
{
    let mut i: usize = 0;
    while i < kinds.len()
        invariant
            i <= kinds.len(),
            forall|k: int| 0 <= k < i ==> #[trigger] kinds@[k] == EntryKind::Regular,
        decreases kinds.len() - i,
    {
        match kinds[i] {
            EntryKind::Regular => {},
            EntryKind::Other => {
                return Some(i);
            },
        }
        i += 1;
    }
    None
}

/// Decides whether the three output directories may be cleared. They may
/// exactly if every entry of each is a regular file. Otherwise nothing is to
/// be removed, and the error names the first entry that stands in the way:
/// the first of the left directory, else of the right one, else of the
/// difference directory.
pub fn check_clearable(
    left: &Vec<EntryKind>,
    right: &Vec<EntryKind>,
    diff: &Vec<EntryKind>,
) -> (verdict: Result<(), ConfigurationError>)
    ensures
        verdict is Ok <==> all_regular(left@) && all_regular(right@) && all_regular(diff@),
        verdict is Err ==> match verdict->Err_0.directory {
            OutputDir::Left => is_first_irregular(left@, verdict->Err_0.position as int),
            OutputDir::Right => all_regular(left@) && is_first_irregular(
                right@,
                verdict->Err_0.position as int,
            ),
            OutputDir::Diff => all_regular(left@) && all_regular(right@) && is_first_irregular(
                diff@,
                verdict->Err_0.position as int,
            ),
        },
{
    if let Some(position) = first_irregular(left) {
        return Err(ConfigurationError { directory: OutputDir::Left, position });
    }
    if let Some(position) = first_irregular(right) {
        return Err(ConfigurationError { directory: OutputDir::Right, position });
    }
    if let Some(position) = first_irregular(diff) {
        return Err(ConfigurationError { directory: OutputDir::Diff, position });
    }
    Ok(())
}

/// What was found at a path.
#[derive(Clone, Copy, Debug, PartialEq, Eq, Structural)]
pub enum PathState {
    /// It could not be found out whether anything is there.
    Unchecked,
    /// Nothing is there.
    Missing,
    /// A regular file.
    RegularFile,
    /// A directory.
    Directory,
    /// Something that is neither a regular file nor a directory.
    Special,
}

/// Why a run cannot start.
#[derive(Clone, Copy, Debug, PartialEq, Eq, Structural)]
pub enum SetupError {
    /// It could not be found out whether the document of this side exists.
    InputUnchecked(Side),
    /// The document of this side does not exist.
    InputMissing(Side),
    /// What stands for the document of this side is no regular file.
    InputNotRegular(Side),
    /// It could not be found out whether the output root exists.
    OutputUnchecked,
    /// The output root exists and is no directory.
    OutputNotDirectory,
}

/// The verdict on an input document: it has to be there, as a regular file.
pub open spec fn input_verdict(side: Side, found: PathState) -> Result<(), SetupError> {
    match found {
        PathState::RegularFile => Ok(()),
        PathState::Unchecked => Err(SetupError::InputUnchecked(side)),
        PathState::Missing => Err(SetupError::InputMissing(side)),
        PathState::Directory | PathState::Special => Err(SetupError::InputNotRegular(side)),
    }
}

/// The verdict on the output root: it is a directory, or it is yet to be
/// made.
pub open spec fn output_verdict(found: PathState) -> Result<(), SetupError> {
    match found {
        PathState::Directory | PathState::Missing => Ok(()),
        PathState::Unchecked => Err(SetupError::OutputUnchecked),
        PathState::RegularFile | PathState::Special => Err(SetupError::OutputNotDirectory),
    }
}

/// Decides whether what was found at the path of an input document will do.
pub fn check_input(side: Side, found: PathState) -> (verdict: Result<(), SetupError>)
    ensures
        verdict == input_verdict(side, found),
{
    match found {
        PathState::RegularFile => Ok(()),
        PathState::Unchecked => Err(SetupError::InputUnchecked(side)),
        PathState::Missing => Err(SetupError::InputMissing(side)),
        PathState::Directory | PathState::Special => Err(SetupError::InputNotRegular(side)),
    }
}

/// Decides whether what was found at the path of the output root will do.
pub fn check_output_root(found: PathState) -> (verdict: Result<(), SetupError>)
    ensures
        verdict == output_verdict(found),
{
    match found {
        PathState::Directory | PathState::Missing => Ok(()),
        PathState::Unchecked => Err(SetupError::OutputUnchecked),
        PathState::RegularFile | PathState::Special => Err(SetupError::OutputNotDirectory),
    }
}

} // verus!
