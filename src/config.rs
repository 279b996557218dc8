use vstd::prelude::*;

verus! {

/// Settings that a caller hands to a search.
#[derive(Debug, Clone)]
pub struct SearchConfig {
    /// Largest number of result pages to fetch.
    pub max_pages: usize,
    /// Timeout in seconds.
    pub timeout: u64,
}

} // verus!
