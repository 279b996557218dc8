use crate::error::VideoSearchError;
use crate::models::{raw_views, PageParams, PageParamsView, RawSearchResult, RawSearchResultView};
use crate::text::{contains, contains_exec, third_segment, third_segment_exec, trim, trim_exec};
use vstd::prelude::*;

verus! {

/// Offset of the first result on the page after the first: the provider's page size.
pub const RESULTS_PER_PAGE: usize = 30;

/// An anchor of a results page, as the page holds it.
#[derive(Debug, Clone)]
pub struct PageAnchor {
    /// Value of the `href` attribute.
    pub href: String,
    /// Text content of the anchor.
    pub text: String,
    /// The text node that follows the anchor's parent, if there is one.
    pub trailing_text: Option<String>,
}

/// The mathematical content of a [`PageAnchor`]: href, text, trailing text.
pub type AnchorView = (Seq<char>, Seq<char>, Option<Seq<char>>);

impl View for PageAnchor {
    type V = AnchorView;

    open spec fn view(&self) -> AnchorView {
        (
            self.href@,
            self.text@,
            match self.trailing_text {
                Some(t) => Some(t@),
                None => None,
            },
        )
    }
}

pub open spec fn anchor_views(anchors: Seq<PageAnchor>) -> Seq<AnchorView> {
    anchors.map_values(|a: PageAnchor| a@)
}

/// The anchors carrying an `href` that an HTML document holds, in document order.
pub uninterp spec fn anchors_of(html: Seq<char>) -> Seq<(Seq<char>, Seq<char>, Option<Seq<char>>)>;

/// The value of the first `vqd` input field of an HTML document, if it has one.
pub uninterp spec fn page_token_of(html: Seq<char>) -> Option<Seq<char>>;

/// The host of `href` read as an absolute URL, if it is one and has a host.
pub uninterp spec fn url_host_of(href: Seq<char>) -> Option<Seq<char>>;

/// Relies on scraper: `Html::parse_document`, then the selector `a[href]`, list the
/// anchors in document order; for each, its `href`, the text of its descendants, and the
/// text node that follows its parent, if that node is text.
#[verifier::external_body]
fn html_anchors(html: &str) -> (r: Vec<PageAnchor>)
    ensures
        anchor_views(r@) == anchors_of(html@),
{
    let doc = scraper::Html::parse_document(html);
    let links = scraper::Selector::parse("a[href]").unwrap();
    let mut r = Vec::new();
    for el in doc.select(&links) {
        let after = el.parent().and_then(|p| p.next_sibling());
        r.push(PageAnchor {
            href: el.value().attr("href").unwrap_or_default().to_string(),
            text: el.text().collect(),
            trailing_text: after.and_then(|n| n.value().as_text().map(|t| t.text.to_string())),
        });
    }
    r
}

/// Relies on scraper: `Html::parse_document`, then the selector `input[name=vqd]`, give
/// the `value` attribute of the first such field.
#[verifier::external_body]
fn html_page_token(html: &str) -> (r: Option<String>)
    ensures
        r matches Some(t) ==> page_token_of(html@) == Some(t@),
        r is None ==> page_token_of(html@) is None,
{
    let doc = scraper::Html::parse_document(html);
    let field = scraper::Selector::parse("input[name=vqd]").unwrap();
    doc.select(&field).next().and_then(|e| e.value().attr("value")).map(|v| v.to_string())
}

/// Relies on url: `Url::parse`, then `Url::host` written out as a string.
#[verifier::external_body]
fn url_host(href: &str) -> (r: Option<String>)
    ensures
        r matches Some(h) ==> url_host_of(href@) == Some(h@),
        r is None ==> url_host_of(href@) is None,
{
    url::Url::parse(href).ok().and_then(|u| u.host().map(|h| h.to_string()))
}

/// A link of the provider's own pages: relative, or pointing at the provider's domain.
pub open spec fn is_internal_link(href: Seq<char>) -> bool {
    (href.len() > 0 && (href[0] == '/' || href[0] == '?')) || contains(href, "duckduckgo.com"@)
}

/// The domain of a link: its URL host, or else the third `/`-separated piece, or else empty.
pub open spec fn domain_of(href: Seq<char>) -> Seq<char> {
    match url_host_of(href) {
        Some(h) => h,
        None => match third_segment(href) {
            Some(t) => t,
            None => Seq::empty(),
        },
    }
}

/// The result that an anchor stands for, unless it is a link of the provider's own pages.
pub open spec fn link_result(a: AnchorView) -> Option<RawSearchResultView> {
    if is_internal_link(a.0) {
        None
    } else {
        Some(
            RawSearchResultView {
                title: trim(a.1),
                url: a.0,
                description: match a.2 {
                    Some(t) => trim(t),
                    None => Seq::empty(),
                },
                domain: domain_of(a.0),
            },
        )
    }
}

/// The results that `anchors` stand for, in their order.
pub open spec fn page_results(anchors: Seq<AnchorView>) -> Seq<RawSearchResultView>
    decreases anchors.len(),
{
    if anchors.len() == 0 {
        Seq::empty()
    } else {
        let before = page_results(anchors.drop_last());
        match link_result(anchors.last()) {
            Some(r) => before.push(r),
            None => before,
        }
    }
}

/// The continuation that a page token stands for.
pub open spec fn page_params_of(token: Option<Seq<char>>) -> Option<PageParamsView> {
    match token {
        Some(t) => Some(PageParamsView { offset: RESULTS_PER_PAGE as nat, page_token: t }),
        None => None,
    }
}

/// The view of an optional continuation.
pub open spec fn params_view(p: Option<PageParams>) -> Option<PageParamsView> {
    match p {
        Some(q) => Some(q@),
        None => None,
    }
}

/// The parse of a page whose anchors are `anchors` and whose page token is `token`: its
/// results and continuation, or none where it has no result.
pub open spec fn page_parse(anchors: Seq<AnchorView>, token: Option<Seq<char>>) -> Option<
    (Seq<RawSearchResultView>, Option<PageParamsView>),
> {
    if page_results(anchors).len() == 0 {
        None
    } else {
        Some((page_results(anchors), page_params_of(token)))
    }
}

/// `r` is the outcome that `expected` describes: its results and continuation, or
/// `NoResults` where `expected` is none.
pub open spec fn page_outcome_is(
    r: Result<(Vec<RawSearchResult>, Option<PageParams>), VideoSearchError>,
    expected: Option<(Seq<RawSearchResultView>, Option<PageParamsView>)>,
) -> bool {
    match r {
        Ok((rs, p)) => expected == Some((raw_views(rs@), params_view(p))),
        Err(e) => e == VideoSearchError::NoResults && expected is None,
    }
}

/// The result that `anchor` stands for, unless it is a link of the provider's own pages.
pub fn parse_link(anchor: &PageAnchor) -> (r: Option<RawSearchResult>)
    ensures
        r matches Some(x) ==> link_result(anchor@) == Some(x@),
        r is None ==> link_result(anchor@) is None,
{
    let href = anchor.href.as_str();
    let n = href.unicode_len();
    if n > 0 && (href.get_char(0) == '/' || href.get_char(0) == '?') {
        return None;
    }
    if contains_exec(href, "duckduckgo.com") {
        return None;
    }
    let domain = match url_host(href) {
        Some(h) => h,
        None => match third_segment_exec(href) {
            Some(t) => t,
            None => String::new(),
        },
    };
    let description = match &anchor.trailing_text {
        Some(t) => trim_exec(t.as_str()),
        None => String::new(),
    };
    Some(
        RawSearchResult {
            title: trim_exec(anchor.text.as_str()),
            url: String::from_str(href),
            description,
            domain,
        },
    )
}

/// The results and continuation of a page with these anchors and this page token;
/// `NoResults` where no anchor stands for a result.
pub fn parse_anchors(anchors: &[PageAnchor], token: Option<String>) -> (r: Result<
    (Vec<RawSearchResult>, Option<PageParams>),
    VideoSearchError,
>)
    ensures
        page_outcome_is(
            r,
            page_parse(
                anchor_views(anchors@),
                match token {
                    Some(t) => Some(t@),
                    None => None,
                },
            ),
        ),
{
    let mut results: Vec<RawSearchResult> = Vec::new();
    let mut i: usize = 0;
    while i < anchors.len()
        invariant
            i <= anchors@.len(),
            raw_views(results@) == page_results(anchor_views(anchors@).take(i as int)),
        decreases anchors@.len() - i,
    {
        let ghost before = results@;
        proof {
            let t = anchor_views(anchors@).take(i + 1);
            assert(t.drop_last() =~= anchor_views(anchors@).take(i as int));
            assert(t.last() == anchors@[i as int]@);
        }
        match parse_link(&anchors[i]) {
            Some(x) => {
                results.push(x);
                assert(raw_views(results@) =~= raw_views(before).push(x@));
            },
            None => {},
        }
        i += 1;
    }
    assert(anchor_views(anchors@).take(anchors@.len() as int) =~= anchor_views(anchors@));
    if results.len() == 0 {
        return Err(VideoSearchError::NoResults);
    }
    let next = match token {
        Some(t) => Some(PageParams { offset: RESULTS_PER_PAGE, page_token: t }),
        None => None,
    };
    Ok((results, next))
}

/// The results and continuation of an HTML results page; `NoResults` where none of its
/// anchors stands for a result.
pub fn parse_page(html: &str) -> (r: Result<(Vec<RawSearchResult>, Option<PageParams>), VideoSearchError>)
    ensures
        page_outcome_is(r, page_parse(anchors_of(html@), page_token_of(html@))),
{
    let anchors = html_anchors(html);
    let token = html_page_token(html);
    parse_anchors(anchors.as_slice(), token)
}

} // verus!
