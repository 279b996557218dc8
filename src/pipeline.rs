use crate::engines::results_page::{
    anchors_of, is_internal_link, link_result, page_outcome_is, page_parse, page_results,
    page_token_of, params_view, AnchorView,
};
use crate::error::VideoSearchError;
use crate::filters::youtube::{
    either_at, first_either_from, id_chars_at, is_id_char, prefixed_id_at,
    short_link_prefix, shorts_prefix, thumbnail_url, video_id_of, watch_prefix,
    youtube_video_of, youtube_videos_in, ID_LEN,
};
use crate::models::{
    raw_views, PageParams, PageParamsView, RawSearchResult, RawSearchResultView, VideoInfoView,
};
use vstd::prelude::*;

verus! {

/// The number of anchors that stand for a result whose URL names a YouTube video.
pub open spec fn video_anchor_count(anchors: Seq<AnchorView>) -> nat
    decreases anchors.len(),
{
    if anchors.len() == 0 {
        0
    } else {
        video_anchor_count(anchors.drop_last()) + if !is_internal_link(anchors.last().0)
            && video_id_of(anchors.last().0) is Some {
            1nat
        } else {
            0nat
        }
    }
}

proof fn lemma_first_either_found(s: Seq<char>, i: int, pat: Seq<char>, alt: Seq<char>)
    requires
        first_either_from(s, i, pat, alt) is Some,
    ensures
        either_at(s, first_either_from(s, i, pat, alt)->0, pat, alt),
    decreases s.len() + 1 - i,
{
    if i >= 0 && i <= s.len() && !either_at(s, i, pat, alt) {
        lemma_first_either_found(s, i + 1, pat, alt);
    }
}

/// A video identifier taken from a URL is `ID_LEN` identifier characters long.
pub proof fn lemma_video_id_shape(url: Seq<char>)
    requires
        video_id_of(url) is Some,
    ensures
        video_id_of(url)->0.len() == ID_LEN,
        forall|k: int| 0 <= k < ID_LEN ==> is_id_char(#[trigger] video_id_of(url)->0[k]),
{
    let (p, q) = if first_either_from(url, 0, watch_prefix(), short_link_prefix()) is Some {
        (watch_prefix(), short_link_prefix())
    } else {
        (shorts_prefix(), shorts_prefix())
    };
    lemma_first_either_found(url, 0, p, q);
    let i = first_either_from(url, 0, p, q)->0;
    let start = if prefixed_id_at(url, i, p) {
        i + p.len()
    } else {
        i + q.len()
    };
    assert(id_chars_at(url, start));
    assert forall|k: int| 0 <= k < ID_LEN implies is_id_char(#[trigger] video_id_of(url)->0[k]) by {
        assert(video_id_of(url)->0[k] == url[start + k]);
    }
}

proof fn lemma_page_results_single(a: AnchorView)
    ensures
        page_results(seq![a]) == match link_result(a) {
            Some(r) => seq![r],
            None => Seq::<RawSearchResultView>::empty(),
        },
{
    let s = seq![a];
    assert(s.drop_last() =~= Seq::<AnchorView>::empty());
    assert(s.last() == a);
    assert(page_results(Seq::<AnchorView>::empty()) == Seq::<RawSearchResultView>::empty());
    match link_result(a) {
        Some(r) => {
            assert(Seq::<RawSearchResultView>::empty().push(r) =~= seq![r]);
        },
        None => {},
    }
}

proof fn lemma_videos_in_single(r: RawSearchResultView)
    ensures
        youtube_videos_in(seq![r]) == match youtube_video_of(r) {
            Some(v) => seq![v],
            None => Seq::<VideoInfoView>::empty(),
        },
{
    let s = seq![r];
    assert(s.drop_last() =~= Seq::<RawSearchResultView>::empty());
    assert(s.last() == r);
    assert(youtube_videos_in(Seq::<RawSearchResultView>::empty())
        == Seq::<VideoInfoView>::empty());
    match youtube_video_of(r) {
        Some(v) => {
            assert(Seq::<VideoInfoView>::empty().push(v) =~= seq![v]);
        },
        None => {},
    }
}

proof fn lemma_page_results_concat(xs: Seq<AnchorView>, ys: Seq<AnchorView>)
    ensures
        page_results(xs + ys) == page_results(xs) + page_results(ys),
    decreases ys.len(),
{
    if ys.len() == 0 {
        assert(xs + ys =~= xs);
        assert(page_results(xs) + page_results(ys) =~= page_results(xs));
    } else {
        assert((xs + ys).drop_last() =~= xs + ys.drop_last());
        lemma_page_results_concat(xs, ys.drop_last());
        match link_result(ys.last()) {
            Some(r) => {
                assert(page_results(xs) + page_results(ys) =~= (page_results(xs)
                    + page_results(ys.drop_last())).push(r));
            },
            None => {},
        }
    }
}

proof fn lemma_videos_in_concat(xs: Seq<RawSearchResultView>, ys: Seq<RawSearchResultView>)
    ensures
        youtube_videos_in(xs + ys) == youtube_videos_in(xs) + youtube_videos_in(ys),
    decreases ys.len(),
{
    if ys.len() == 0 {
        assert(xs + ys =~= xs);
        assert(youtube_videos_in(xs) + youtube_videos_in(ys) =~= youtube_videos_in(xs));
    } else {
        assert((xs + ys).drop_last() =~= xs + ys.drop_last());
        lemma_videos_in_concat(xs, ys.drop_last());
        match youtube_video_of(ys.last()) {
            Some(v) => {
                assert(youtube_videos_in(xs) + youtube_videos_in(ys) =~= (youtube_videos_in(xs)
                    + youtube_videos_in(ys.drop_last())).push(v));
            },
            None => {},
        }
    }
}

/// Parsing a page and then filtering its results for YouTube videos gives one video per
/// anchor that is a result link naming a video, each with an identifier of `ID_LEN`
/// characters and the four preview images from the lowest resolution to the highest.
pub proof fn lemma_parse_then_filter(anchors: Seq<AnchorView>)
    ensures
        youtube_videos_in(page_results(anchors)).len() == video_anchor_count(anchors),
        forall|k: int|
            0 <= k < youtube_videos_in(page_results(anchors)).len() ==> {
                let v = #[trigger] youtube_videos_in(page_results(anchors))[k];
                &&& v.platform == "youtube"@
                &&& v.id.len() == ID_LEN
                &&& v.thumbnails.len() == 4
                &&& v.thumbnails == seq![
                    thumbnail_url(v.id, "default"@),
                    thumbnail_url(v.id, "mqdefault"@),
                    thumbnail_url(v.id, "hqdefault"@),
                    thumbnail_url(v.id, "maxresdefault"@),
                ]
            },
    decreases anchors.len(),
{
    if anchors.len() > 0 {
        let before = anchors.drop_last();
        let a = anchors.last();
        lemma_parse_then_filter(before);
        assert(anchors =~= before + seq![a]);
        lemma_page_results_concat(before, seq![a]);
        lemma_page_results_single(a);
        let tail = page_results(seq![a]);
        lemma_videos_in_concat(page_results(before), tail);
        let old_videos = youtube_videos_in(page_results(before));
        let all = youtube_videos_in(page_results(anchors));
        match link_result(a) {
            Some(r) => {
                lemma_videos_in_single(r);
                if video_id_of(r.url) is Some {
                    lemma_video_id_shape(r.url);
                }
            },
            None => {
                assert(youtube_videos_in(tail) == Seq::<VideoInfoView>::empty())
                    by {
                    assert(tail =~= Seq::<RawSearchResultView>::empty());
                };
            },
        }
        assert(all == old_videos + youtube_videos_in(tail));
        assert forall|k: int| 0 <= k < all.len() implies {
            let v = #[trigger] all[k];
            &&& v.platform == "youtube"@
            &&& v.id.len() == ID_LEN
            &&& v.thumbnails.len() == 4
            &&& v.thumbnails == seq![
                thumbnail_url(v.id, "default"@),
                thumbnail_url(v.id, "mqdefault"@),
                thumbnail_url(v.id, "hqdefault"@),
                thumbnail_url(v.id, "maxresdefault"@),
            ]
        } by {
            if k < old_videos.len() {
                assert(all[k] == old_videos[k]);
            } else {
                assert(all[k] == youtube_videos_in(tail)[k - old_videos.len()]);
            }
        }
    }
}

/// An anchor that is a link of the provider's own pages, or whose URL names no YouTube
/// video, adds no video, wherever it stands among the page's anchors.
pub proof fn lemma_skipped_anchor(before: Seq<AnchorView>, a: AnchorView, after: Seq<AnchorView>)
    requires
        is_internal_link(a.0) || video_id_of(a.0) is None,
    ensures
        youtube_videos_in(page_results(before + seq![a] + after)) == youtube_videos_in(
            page_results(before + after),
        ),
        is_internal_link(a.0) ==> page_results(before + seq![a] + after) == page_results(
            before + after,
        ),
{
    lemma_page_results_concat(before + seq![a], after);
    lemma_page_results_concat(before, seq![a]);
    lemma_page_results_concat(before, after);
    lemma_page_results_single(a);
    let mid = page_results(seq![a]);
    lemma_videos_in_concat(page_results(before) + mid, page_results(after));
    lemma_videos_in_concat(page_results(before), mid);
    lemma_videos_in_concat(page_results(before), page_results(after));
    match link_result(a) {
        Some(r) => {
            lemma_videos_in_single(r);
        },
        None => {
            assert(youtube_videos_in(mid) == Seq::<VideoInfoView>::empty());
        },
    }
    assert(page_results(before) + Seq::<RawSearchResultView>::empty() =~= page_results(before));
    assert(youtube_videos_in(page_results(before)) + Seq::<VideoInfoView>::empty()
        =~= youtube_videos_in(page_results(before)));
}

/// What a page parse returned, as values: its results and continuation, or none.
pub open spec fn outcome_view(
    r: Result<(Vec<RawSearchResult>, Option<PageParams>), VideoSearchError>,
) -> Option<(Seq<RawSearchResultView>, Option<PageParamsView>)> {
    match r {
        Ok((rs, p)) => Some((raw_views(rs@), params_view(p))),
        Err(_) => None,
    }
}

/// Two parses of one HTML document give the same results and continuation, or fail alike.
pub proof fn lemma_parse_page_idempotent(
    html: Seq<char>,
    r1: Result<(Vec<RawSearchResult>, Option<PageParams>), VideoSearchError>,
    r2: Result<(Vec<RawSearchResult>, Option<PageParams>), VideoSearchError>,
)
    requires
        page_outcome_is(r1, page_parse(anchors_of(html), page_token_of(html))),
        page_outcome_is(r2, page_parse(anchors_of(html), page_token_of(html))),
    ensures
        outcome_view(r1) == outcome_view(r2),
        r1 is Err <==> r2 is Err,
        r1 matches Err(e1) ==> r2 matches Err(e2) && e1 == e2,
{
}

} // verus!
