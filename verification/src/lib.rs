//! A terminal stock-quote watcher, split into two engines:
//! a fan-in multiplexer that merges push updates from independently
//! paced feed sources into one ordered stream, and an incremental
//! paged table renderer that recomputes column layout from the
//! terminal width and redraws only the rows that changed.

pub mod common;
pub mod fmt;
pub mod render;
pub mod source;

use vstd::prelude::*;

verus! {

} // verus!
