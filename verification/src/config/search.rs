//! Search settings.

use vstd::prelude::*;

verus! {

/// How long the search waits for further typing, in milliseconds.
pub const DEBOUNCE_MS: u64 = 150;

/// The most results that a search shows.
pub const MAX_RESULTS: i32 = 20;

} // verus!
