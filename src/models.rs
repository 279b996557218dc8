use vstd::prelude::*;

verus! {

/// One result link taken from a search page.
#[derive(Debug, Clone)]
pub struct RawSearchResult {
    /// Text of the link.
    pub title: String,
    /// Where the link points.
    pub url: String,
    /// Text that follows the link on the page.
    pub description: String,
    /// Host of `url`.
    pub domain: String,
}

/// The mathematical content of a [`RawSearchResult`].
pub struct RawSearchResultView {
    pub title: Seq<char>,
    pub url: Seq<char>,
    pub description: Seq<char>,
    pub domain: Seq<char>,
}

impl View for RawSearchResult {
    type V = RawSearchResultView;

    open spec fn view(&self) -> RawSearchResultView {
        RawSearchResultView {
            title: self.title@,
            url: self.url@,
            description: self.description@,
            domain: self.domain@,
        }
    }
}

/// A video found among the results.
#[derive(Debug, Clone)]
pub struct VideoInfo {
    /// Platform name, such as `youtube`.
    pub platform: String,
    /// The platform's identifier of the video.
    pub id: String,
    /// Title of the link that named the video.
    pub title: String,
    /// Address of the video.
    pub url: String,
    /// Preview images, from the lowest resolution to the highest.
    pub thumbnails: Vec<String>,
    /// Domain of the link that named the video.
    pub source_domain: String,
}

/// The mathematical content of a [`VideoInfo`].
pub struct VideoInfoView {
    pub platform: Seq<char>,
    pub id: Seq<char>,
    pub title: Seq<char>,
    pub url: Seq<char>,
    pub thumbnails: Seq<Seq<char>>,
    pub source_domain: Seq<char>,
}

impl View for VideoInfo {
    type V = VideoInfoView;

    open spec fn view(&self) -> VideoInfoView {
        VideoInfoView {
            platform: self.platform@,
            id: self.id@,
            title: self.title@,
            url: self.url@,
            thumbnails: self.thumbnails@.map_values(|t: String| t@),
            source_domain: self.source_domain@,
        }
    }
}

/// Continuation state for the next page of a search.
#[derive(Debug, Clone)]
pub struct PageParams {
    /// Offset of the first result of the next page.
    pub offset: usize,
    /// Token that the provider issued for the next page.
    pub page_token: String,
}

/// The mathematical content of a [`PageParams`].
pub struct PageParamsView {
    pub offset: nat,
    pub page_token: Seq<char>,
}

impl View for PageParams {
    type V = PageParamsView;

    open spec fn view(&self) -> PageParamsView {
        PageParamsView { offset: self.offset as nat, page_token: self.page_token@ }
    }
}

/// The views of a sequence of raw results.
pub open spec fn raw_views(rs: Seq<RawSearchResult>) -> Seq<RawSearchResultView> {
    rs.map_values(|r: RawSearchResult| r@)
}

/// The views of a sequence of videos.
pub open spec fn video_views(vs: Seq<VideoInfo>) -> Seq<VideoInfoView> {
    vs.map_values(|v: VideoInfo| v@)
}

} // verus!
