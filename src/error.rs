use vstd::prelude::*;

verus! {

/// Every failure that a search can end in.
#[derive(Debug, Clone, PartialEq, Eq)]
pub enum VideoSearchError {
    /// The request could not be sent, timed out, or came back with a non-success status.
    NetworkError(String),
    /// The page's markup could not be read at all.
    ParseError,
    /// A page, a search or a filter produced nothing usable.
    NoResults,
    /// The continuation state of a paginated search is inconsistent.
    PaginationError(String),
    /// A link could not be classified into any domain.
    InvalidUrl(String),
    /// A caller-supplied setting is out of bounds.
    ConfigError(String),
    /// A platform-specific failure.
    PlatformError(String),
}

} // verus!
