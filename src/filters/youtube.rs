use crate::error::VideoSearchError;
use crate::filters::LinkFilter;
use crate::text::{occurs_at, occurs_at_exec};
use crate::models::{raw_views, video_views, RawSearchResult, RawSearchResultView, VideoInfo, VideoInfoView};
use vstd::prelude::*;

verus! {

/// Number of characters in a YouTube video identifier.
pub const ID_LEN: usize = 11;

/// A character that may stand in a YouTube video identifier.
pub open spec fn is_id_char(c: char) -> bool {
    ('a' <= c && c <= 'z') || ('A' <= c && c <= 'Z') || ('0' <= c && c <= '9') || c == '_'
        || c == '-'
}

/// The `ID_LEN` characters of `s` from index `i` on are all identifier characters.
pub open spec fn id_chars_at(s: Seq<char>, i: int) -> bool {
    0 <= i && i + ID_LEN <= s.len() && forall|k: int| i <= k < i + ID_LEN ==> is_id_char(#[trigger] s[k])
}

/// `pat` followed by a full identifier occurs in `s` at index `i`.
pub open spec fn prefixed_id_at(s: Seq<char>, i: int, pat: Seq<char>) -> bool {
    occurs_at(s, i, pat) && id_chars_at(s, i + pat.len())
}

pub open spec fn watch_prefix() -> Seq<char> {
    "youtube.com/watch?v="@
}

pub open spec fn short_link_prefix() -> Seq<char> {
    "youtu.be/"@
}

pub open spec fn shorts_prefix() -> Seq<char> {
    "youtube.com/shorts/"@
}

/// `pat` or `alt`, followed by a full identifier, occurs in `s` at index `i`.
pub open spec fn either_at(s: Seq<char>, i: int, pat: Seq<char>, alt: Seq<char>) -> bool {
    prefixed_id_at(s, i, pat) || prefixed_id_at(s, i, alt)
}

/// The leftmost index at or after `i` where `either_at` holds.
pub open spec fn first_either_from(s: Seq<char>, i: int, pat: Seq<char>, alt: Seq<char>) -> Option<int>
    decreases s.len() + 1 - i,
{
    if i < 0 || i > s.len() {
        None
    } else if either_at(s, i, pat, alt) {
        Some(i)
    } else {
        first_either_from(s, i + 1, pat, alt)
    }
}

/// The identifier that follows `pat` (or else `alt`) at index `i`.
pub open spec fn id_after(s: Seq<char>, i: int, pat: Seq<char>, alt: Seq<char>) -> Seq<char> {
    let start = if prefixed_id_at(s, i, pat) {
        i + pat.len()
    } else {
        i + alt.len()
    };
    s.subrange(start, start + ID_LEN)
}

/// The identifier of the leftmost match of `pat` or `alt` followed by an identifier.
pub open spec fn first_id(s: Seq<char>, pat: Seq<char>, alt: Seq<char>) -> Option<Seq<char>> {
    match first_either_from(s, 0, pat, alt) {
        Some(i) => Some(id_after(s, i, pat, alt)),
        None => None,
    }
}

/// The video identifier named by a URL: that of the leftmost watch link
/// (`youtube.com/watch?v=<id>`) or short link (`youtu.be/<id>`) if there is one, else that
/// of the leftmost shorts link (`youtube.com/shorts/<id>`), else none.
pub open spec fn video_id_of(url: Seq<char>) -> Option<Seq<char>> {
    match first_id(url, watch_prefix(), short_link_prefix()) {
        Some(id) => Some(id),
        None => first_id(url, shorts_prefix(), shorts_prefix()),
    }
}

/// Whether the `ID_LEN` characters of `s` from index `i` on are identifier characters.
fn id_chars_at_exec(s: &str, i: usize) -> (r: bool)
    ensures
        r == id_chars_at(s@, i as int),
{
    let n = s.unicode_len();
    if i > n || ID_LEN > n - i {
        return false;
    }
    let mut k: usize = 0;
    while k < ID_LEN
        invariant
            n == s@.len(),
            i + ID_LEN <= n,
            k <= ID_LEN,
            forall|j: int| i <= j < i + k ==> is_id_char(#[trigger] s@[j]),
        decreases ID_LEN - k,
    {
        let c = s.get_char(i + k);
        if !(('a' <= c && c <= 'z') || ('A' <= c && c <= 'Z') || ('0' <= c && c <= '9') || c
            == '_' || c == '-') {
            return false;
        }
        k += 1;
    }
    true
}

/// Whether `pat` followed by a full identifier occurs in `s` at index `i`.
fn prefixed_id_at_exec(s: &str, i: usize, pat: &str) -> (r: bool)
    ensures
        r == prefixed_id_at(s@, i as int, pat@),
{
    if !occurs_at_exec(s, i, pat) {
        return false;
    }
    let n = s.unicode_len();
    let m = pat.unicode_len();
    assert(i + m <= n);
    id_chars_at_exec(s, i + m)
}

/// The identifier that follows the leftmost match of `pat` or `alt` in `s`.
fn find_id(s: &str, pat: &str, alt: &str) -> (r: Option<String>)
    ensures
        r matches Some(id) ==> first_id(s@, pat@, alt@) == Some(id@),
        r is None ==> first_id(s@, pat@, alt@) is None,
{
    let n = s.unicode_len();
    let mut i: usize = 0;
    loop
        invariant
            n == s@.len(),
            i <= n,
            first_either_from(s@, 0, pat@, alt@) == first_either_from(s@, i as int, pat@, alt@),
        decreases n - i,
    {
        let on_pat = prefixed_id_at_exec(s, i, pat);
        if on_pat || prefixed_id_at_exec(s, i, alt) {
            let start = if on_pat {
                i + pat.unicode_len()
            } else {
                i + alt.unicode_len()
            };
            let id = s.substring_char(start, start + ID_LEN);
            return Some(String::from_str(id));
        }
        if i == n {
            assert(first_either_from(s@, i + 1, pat@, alt@) is None);
            return None;
        }
        i += 1;
    }
}

/// The address of the preview image of video `id` at resolution `tier`.
pub open spec fn thumbnail_url(id: Seq<char>, tier: Seq<char>) -> Seq<char> {
    "https://img.youtube.com/vi/"@ + id + "/"@ + tier + ".jpg"@
}

/// The four preview images of video `id`, from the lowest resolution to the highest.
pub open spec fn thumbnails_of(id: Seq<char>) -> Seq<Seq<char>> {
    seq![
        thumbnail_url(id, "default"@),
        thumbnail_url(id, "mqdefault"@),
        thumbnail_url(id, "hqdefault"@),
        thumbnail_url(id, "maxresdefault"@),
    ]
}

/// The video that a raw result names, where its URL carries a YouTube identifier.
pub open spec fn youtube_video_of(r: RawSearchResultView) -> Option<VideoInfoView> {
    match video_id_of(r.url) {
        Some(id) => Some(
            VideoInfoView {
                platform: "youtube"@,
                id,
                title: r.title,
                url: r.url,
                thumbnails: thumbnails_of(id),
                source_domain: r.domain,
            },
        ),
        None => None,
    }
}

/// The videos that `rs` names, in the order of `rs`; results naming none are left out.
pub open spec fn youtube_videos_in(rs: Seq<RawSearchResultView>) -> Seq<VideoInfoView>
    decreases rs.len(),
{
    if rs.len() == 0 {
        Seq::empty()
    } else {
        let before = youtube_videos_in(rs.drop_last());
        match youtube_video_of(rs.last()) {
            Some(v) => before.push(v),
            None => before,
        }
    }
}

fn thumbnail(id: &str, tier: &str) -> (r: String)
    ensures
        r@ == thumbnail_url(id@, tier@),
{
    let s = String::from_str("https://img.youtube.com/vi/");
    s.concat(id).concat("/").concat(tier).concat(".jpg")
}

/// Filter that keeps the results naming a YouTube video.
pub struct YouTubeFilter;

impl YouTubeFilter {
    /// The video identifier named by `url`, if any.
    pub fn extract_id(url: &str) -> (r: Option<String>)
        ensures
            r matches Some(id) ==> video_id_of(url@) == Some(id@),
            r is None ==> video_id_of(url@) is None,
    {
        match find_id(url, "youtube.com/watch?v=", "youtu.be/") {
            Some(id) => Some(id),
            None => find_id(url, "youtube.com/shorts/", "youtube.com/shorts/"),
        }
    }

    /// The four preview image addresses of video `id`, from the lowest resolution up.
    pub fn generate_thumbnails(id: &str) -> (r: Vec<String>)
        ensures
            r@.map_values(|t: String| t@) == thumbnails_of(id@),
    {
        let r = vec![
            thumbnail(id, "default"),
            thumbnail(id, "mqdefault"),
            thumbnail(id, "hqdefault"),
            thumbnail(id, "maxresdefault"),
        ];
        assert(r@.map_values(|t: String| t@) =~= thumbnails_of(id@));
        r
    }

    fn video_of_result(result: &RawSearchResult) -> (r: Option<VideoInfo>)
        ensures
            r matches Some(v) ==> youtube_video_of(result@) == Some(v@),
            r is None ==> youtube_video_of(result@) is None,
    {
        match Self::extract_id(result.url.as_str()) {
            Some(id) => {
                let thumbnails = Self::generate_thumbnails(id.as_str());
                Some(
                    VideoInfo {
                        platform: String::from_str("youtube"),
                        id,
                        title: result.title.clone(),
                        url: result.url.clone(),
                        thumbnails,
                        source_domain: result.domain.clone(),
                    },
                )
            },
            None => None,
        }
    }
}

impl LinkFilter for YouTubeFilter {
    open spec fn videos_in(&self, rs: Seq<RawSearchResultView>) -> Seq<VideoInfoView> {
        youtube_videos_in(rs)
    }

    open spec fn domains(&self) -> Seq<Seq<char>> {
        seq!["youtube.com"@, "youtu.be"@]
    }

    fn filter(&self, results: &[RawSearchResult]) -> (r: Result<Vec<VideoInfo>, VideoSearchError>) {
        let mut videos: Vec<VideoInfo> = Vec::new();
        let mut i: usize = 0;
        while i < results.len()
            invariant
                i <= results@.len(),
                video_views(videos@) == youtube_videos_in(raw_views(results@).take(i as int)),
            decreases results@.len() - i,
        {
            let ghost before = videos@;
            proof {
                let t = raw_views(results@).take(i + 1);
                assert(t.drop_last() =~= raw_views(results@).take(i as int));
                assert(t.last() == results@[i as int]@);
            }
            match Self::video_of_result(&results[i]) {
                Some(v) => {
                    videos.push(v);
                    assert(video_views(videos@) =~= video_views(before).push(v@));
                },
                None => {},
            }
            i += 1;
        }
        assert(raw_views(results@).take(results@.len() as int) =~= raw_views(results@));
        if videos.len() == 0 {
            Err(VideoSearchError::NoResults)
        } else {
            Ok(videos)
        }
    }

    fn supported_domains(&self) -> (r: &'static [&'static str]) {
        let r: &'static [&'static str] = &["youtube.com", "youtu.be"];
        r
    }
}

} // verus!
