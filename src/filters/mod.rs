pub mod youtube;

pub use youtube::YouTubeFilter;

use crate::error::VideoSearchError;
use crate::models::{raw_views, video_views, RawSearchResult, RawSearchResultView, VideoInfo, VideoInfoView};
use vstd::prelude::*;

verus! {

/// A filter that turns raw search results into the videos of one platform.
pub trait LinkFilter {
    /// The videos of this platform that `rs` names, in the order of `rs`.
    spec fn videos_in(&self, rs: Seq<RawSearchResultView>) -> Seq<VideoInfoView>;

    /// The domains that this filter's platform serves its videos from.
    spec fn domains(&self) -> Seq<Seq<char>>;

    /// The videos named by `results`, in their order; `NoResults` where there is none.
    fn filter(&self, results: &[RawSearchResult]) -> (r: Result<Vec<VideoInfo>, VideoSearchError>)
        ensures
            r matches Ok(vs) ==> video_views(vs@) == self.videos_in(raw_views(results@)),
            r is Ok <==> self.videos_in(raw_views(results@)).len() > 0,
            r matches Err(e) ==> e == VideoSearchError::NoResults,
    ;

    /// The domains that this filter's platform serves its videos from.
    fn supported_domains(&self) -> (r: &'static [&'static str])
        ensures
            r@.map_values(|d: &str| d@) == self.domains(),
    ;
}

} // verus!
