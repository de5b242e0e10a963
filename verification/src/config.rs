//! The inputs and output locations of one comparison run.

use std::path::PathBuf;
use vstd::prelude::*;

verus! {

/// `std::path::PathBuf`, carried through the library as an opaque value: the
/// library hands paths on and never looks inside one.
#[verifier::external_type_specification]
#[verifier::external_body]
pub struct ExPathBuf(PathBuf);

/// `PathBuf::clone`: the copy is the same path as the one it was made from.
#[verifier::external_body]
pub(crate) fn clone_path(path: &PathBuf) -> (copy: PathBuf)
    ensures
        copy == *path,
{
    path.clone()
}

/// Where the two documents are and where their pages and differences go.
#[derive(Debug, PartialEq, Eq)]
pub struct Config {
    /// The left document.
    pub left_file: PathBuf,
    /// The right document.
    pub right_file: PathBuf,
    /// Directory that receives the page images of the left document.
    pub left_dir: PathBuf,
    /// Directory that receives the page images of the right document.
    pub right_dir: PathBuf,
    /// Directory that receives one difference image per compared pair.
    pub diff_dir: PathBuf,
}

impl Clone for Config {
    fn clone(&self) -> (copy: Config)
        ensures
            copy == *self,
    {
        Config {
            left_file: clone_path(&self.left_file),
            right_file: clone_path(&self.right_file),
            left_dir: clone_path(&self.left_dir),
            right_dir: clone_path(&self.right_dir),
            diff_dir: clone_path(&self.diff_dir),
        }
    }
}

} // verus!
