//! A single-request file downloader: the decisions of one transfer (status
//! check, file creation, chunk-by-chunk writing and progress accounting) as a
//! verified state machine, driven by a thin asynchronous front end.
use vstd::prelude::*;

pub mod download;
pub mod laws;
pub mod progress;

verus! {

/// Where a download is written when no destination is given.
pub const DEFAULT_DESTINATION: &'static str = "downloaded_file";

} // verus!
