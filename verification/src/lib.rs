//! Page pairing and comparison orchestration for two rendered versions of a
//! paginated document.
//!
//! The library holds the decisions of a comparison run: which pages of the two
//! sides belong together, what a page-count discrepancy leads to, how the
//! outcome of each page comparison is classified, and in which order the
//! external tools are to be driven. Running those tools and touching the file
//! system is left to the caller.

pub mod config;
pub mod entry;
pub mod enumerator;
pub mod gate;
pub mod layout;
pub mod matcher;
pub mod orchestrator;
pub mod outcome;
pub mod trace;
