//! The review logic of the nasty-retropixel command line: reading its
//! options into processing settings, the named presets, the batch quality
//! summary and its recommendations, the retry plans tried on the worst
//! rows, and the CSV and file names that a batch run writes.
use vstd::prelude::*;

pub mod cli;
pub mod csv;
pub mod modes;
pub mod paths;
pub mod plans;
pub mod report;
pub mod retry;
pub mod summary;
pub mod tables;
pub mod text;

verus! {

} // verus!
