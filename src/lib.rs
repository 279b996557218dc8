pub mod config;
pub mod engines;
pub mod error;
pub mod filters;
pub mod models;
pub mod pipeline;
pub mod text;

pub use config::SearchConfig;
pub use error::VideoSearchError;
pub use models::VideoInfo;

use crate::filters::LinkFilter;
use crate::models::{raw_views, video_views, RawSearchResult};
use vstd::prelude::*;

verus! {

/// A video search made of a search engine and a filter for one video platform.
pub struct VideoHound<E, F> {
    engine: E,
    filter: F,
}

impl<E, F> VideoHound<E, F> {
    /// A search with this engine and this filter.
    pub fn new(engine: E, filter: F) -> (r: Self)
        ensures
            r.engine_spec() == engine,
            r.filter_spec() == filter,
    {
        Self { engine, filter }
    }

    /// The engine, as a value.
    pub closed spec fn engine_spec(&self) -> E {
        self.engine
    }

    /// The filter, as a value.
    pub closed spec fn filter_spec(&self) -> F {
        self.filter
    }

    /// The search engine.
    pub fn engine(&self) -> (r: &E)
        ensures
            *r == self.engine_spec(),
    {
        &self.engine
    }

    /// The filter.
    pub fn filter(&self) -> (r: &F)
        ensures
            *r == self.filter_spec(),
    {
        &self.filter
    }
}

impl<E, F: LinkFilter> VideoHound<E, F> {
    /// The videos that the filter finds among the engine's raw results.
    pub fn videos_from(&self, results: &[RawSearchResult]) -> (r: Result<Vec<VideoInfo>, VideoSearchError>)
        ensures
            r matches Ok(vs) ==> video_views(vs@) == self.filter_spec().videos_in(raw_views(results@)),
            r is Ok <==> self.filter_spec().videos_in(raw_views(results@)).len() > 0,
            r matches Err(e) ==> e == VideoSearchError::NoResults,
    {
        self.filter.filter(results)
    }
}

} // verus!
