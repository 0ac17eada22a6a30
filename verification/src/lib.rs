//! Room-history synchronization and media-deduplication pipeline for a
//! Matrix-compatible chat export tool.
//!
//! The library holds the verified core: pagination state (the batch walker),
//! event classification, media resolution and deduplication, the bounded
//! lookup cache, room aggregation, and the text renderers. Network and file
//! I/O live outside the library and hand plain values in and out.

use vstd::prelude::*;

pub mod cache;
pub mod dedup;
pub mod event;
pub mod export;
pub mod media;
pub mod model;
pub mod saved;
pub mod timefmt;
pub mod util;
pub mod walker;

verus! {

/// The pagination cursor value that marks exhausted history.
pub const TERMINAL_CURSOR: &'static str = "t0_0";

/// True when a cursor string is the terminal sentinel.
pub open spec fn spec_is_terminal(c: Seq<char>) -> bool {
    c == TERMINAL_CURSOR@
}

/// Decides whether a cursor returned by the message endpoint ends the walk.
pub fn is_terminal_cursor(c: &String) -> (r: bool)
    ensures
        r == spec_is_terminal(c@),
{
    *c == String::from_str(TERMINAL_CURSOR)
}

} // verus!
