use crate::error::VideoSearchError;
use crate::models::{PageParams, PageParamsView};
use vstd::prelude::*;

verus! {

/// Address that the search form is posted to.
pub const SEARCH_URL: &'static str = "https://html.duckduckgo.com/html/";

/// Timeout, in seconds, of one request.
pub const REQUEST_TIMEOUT_SECS: u64 = 10;

/// Number of browser identities that requests are sent under.
pub const USER_AGENT_COUNT: usize = 4;

/// The browser identities that requests are sent under.
pub open spec fn user_agent_pool() -> Seq<Seq<char>> {
    seq![
        "Mozilla/5.0 (Windows NT 10.0; Win64; x64) AppleWebKit/537.36 (KHTML, like Gecko) Chrome/91.0.4472.124 Safari/537.36"@,
        "Mozilla/5.0 (Macintosh; Intel Mac OS X 10_15_7) AppleWebKit/537.36 (KHTML, like Gecko) Chrome/91.0.4472.124 Safari/537.36"@,
        "Mozilla/5.0 (Windows NT 10.0; Win64; x64; rv:89.0) Gecko/20100101 Firefox/89.0"@,
        "Mozilla/5.0 (X11; Linux x86_64; rv:141.0) Gecko/20100101 Firefox/141.0"@,
    ]
}

/// The browser identity of index `i` in the pool.
pub fn user_agent(i: usize) -> (r: &'static str)
    requires
        i < USER_AGENT_COUNT,
    ensures
        r@ == user_agent_pool()[i as int],
{
    if i == 0 {
        "Mozilla/5.0 (Windows NT 10.0; Win64; x64) AppleWebKit/537.36 (KHTML, like Gecko) Chrome/91.0.4472.124 Safari/537.36"
    } else if i == 1 {
        "Mozilla/5.0 (Macintosh; Intel Mac OS X 10_15_7) AppleWebKit/537.36 (KHTML, like Gecko) Chrome/91.0.4472.124 Safari/537.36"
    } else if i == 2 {
        "Mozilla/5.0 (Windows NT 10.0; Win64; x64; rv:89.0) Gecko/20100101 Firefox/89.0"
    } else {
        "Mozilla/5.0 (X11; Linux x86_64; rv:141.0) Gecko/20100101 Firefox/141.0"
    }
}

/// Relies on rand: `random_range` over a non-empty half-open range returns a value in it.
#[verifier::external_body]
fn random_index(len: usize) -> (r: usize)
    requires
        0 < len,
    ensures
        r < len,
{
    rand::random_range(0..len)
}

/// A browser identity drawn at random from the pool.
pub fn random_user_agent() -> (r: String)
    ensures
        user_agent_pool().contains(r@),
{
    let i = random_index(USER_AGENT_COUNT);
    let r = String::from_str(user_agent(i));
    assert(user_agent_pool()[i as int] == r@);
    r
}

/// The headers, other than the browser identity, that every request carries.
pub open spec fn browser_header_set() -> Seq<(Seq<char>, Seq<char>)> {
    seq![
        ("Accept"@, "text/html,application/xhtml+xml,application/xml;q=0.9,*/*;q=0.8"@),
        ("Accept-Language"@, "ru-RU,ru;q=0.8,en-US;q=0.5,en;q=0.3"@),
        ("Accept-Encoding"@, "gzip, deflate, br"@),
        ("Referer"@, "https://html.duckduckgo.com/"@),
        ("Origin"@, "https://html.duckduckgo.com"@),
        ("Upgrade-Insecure-Requests"@, "1"@),
        ("Sec-Fetch-Dest"@, "document"@),
        ("Sec-Fetch-Mode"@, "navigate"@),
        ("Sec-Fetch-Site"@, "same-origin"@),
        ("Sec-Fetch-User"@, "?1"@),
    ]
}

/// The views of a list of name and value pairs.
pub open spec fn pair_views(v: Seq<(&'static str, &'static str)>) -> Seq<(Seq<char>, Seq<char>)> {
    v.map_values(|p: (&'static str, &'static str)| (p.0@, p.1@))
}

/// The headers, other than the browser identity, that every request carries.
pub fn browser_headers() -> (r: Vec<(&'static str, &'static str)>)
    ensures
        pair_views(r@) == browser_header_set(),
{
    let r = vec![
        ("Accept", "text/html,application/xhtml+xml,application/xml;q=0.9,*/*;q=0.8"),
        ("Accept-Language", "ru-RU,ru;q=0.8,en-US;q=0.5,en;q=0.3"),
        ("Accept-Encoding", "gzip, deflate, br"),
        ("Referer", "https://html.duckduckgo.com/"),
        ("Origin", "https://html.duckduckgo.com"),
        ("Upgrade-Insecure-Requests", "1"),
        ("Sec-Fetch-Dest", "document"),
        ("Sec-Fetch-Mode", "navigate"),
        ("Sec-Fetch-Site", "same-origin"),
        ("Sec-Fetch-User", "?1"),
    ];
    assert(pair_views(r@) =~= browser_header_set());
    r
}

/// The character of decimal digit `d`.
pub open spec fn digit_char(d: nat) -> char {
    (('0' as u32) + d) as char
}

/// `n` written in decimal, without leading zeros.
pub open spec fn decimal(n: nat) -> Seq<char>
    decreases n,
{
    if n < 10 {
        seq![digit_char(n)]
    } else {
        decimal(n / 10).push(digit_char(n % 10))
    }
}

fn digit_str(d: usize) -> (r: &'static str)
    requires
        d < 10,
    ensures
        r@ == seq![digit_char(d as nat)],
{
    proof {
        reveal_strlit("0");
        reveal_strlit("1");
        reveal_strlit("2");
        reveal_strlit("3");
        reveal_strlit("4");
        reveal_strlit("5");
        reveal_strlit("6");
        reveal_strlit("7");
        reveal_strlit("8");
        reveal_strlit("9");
    }
    let r = if d == 0 {
        "0"
    } else if d == 1 {
        "1"
    } else if d == 2 {
        "2"
    } else if d == 3 {
        "3"
    } else if d == 4 {
        "4"
    } else if d == 5 {
        "5"
    } else if d == 6 {
        "6"
    } else if d == 7 {
        "7"
    } else if d == 8 {
        "8"
    } else {
        "9"
    };
    assert(r@ =~= seq![digit_char(d as nat)]);
    r
}

/// `n` written in decimal.
pub fn decimal_string(n: usize) -> (r: String)
    ensures
        r@ == decimal(n as nat),
    decreases n,
{
    if n < 10 {
        String::from_str(digit_str(n))
    } else {
        let head = decimal_string(n / 10);
        let r = head.concat(digit_str(n % 10));
        assert(r@ =~= decimal(n as nat));
        r
    }
}

/// The form fields of a search request: the query and the region, then, on a continuation
/// request, the offset and the page token.
pub open spec fn form_field_set(query: Seq<char>, params: Option<PageParamsView>) -> Seq<
    (Seq<char>, Seq<char>),
> {
    let first = seq![("q"@, query), ("kl"@, "wt-wt"@)];
    match params {
        None => first,
        Some(p) => first + seq![("s"@, decimal(p.offset)), ("vqd"@, p.page_token)],
    }
}

/// The views of a list of owned name and value pairs.
pub open spec fn field_views(v: Seq<(String, String)>) -> Seq<(Seq<char>, Seq<char>)> {
    v.map_values(|p: (String, String)| (p.0@, p.1@))
}

/// The form fields of a search request for `query`, continuing from `params` if given.
pub fn form_fields(query: &str, params: Option<&PageParams>) -> (r: Vec<(String, String)>)
    ensures
        field_views(r@) == form_field_set(
            query@,
            match params {
                Some(p) => Some(p@),
                None => None,
            },
        ),
{
    let mut r = vec![
        (String::from_str("q"), String::from_str(query)),
        (String::from_str("kl"), String::from_str("wt-wt")),
    ];
    match params {
        Some(p) => {
            r.push((String::from_str("s"), decimal_string(p.offset)));
            r.push((String::from_str("vqd"), p.page_token.clone()));
        },
        None => {},
    }
    assert(field_views(r@) =~= form_field_set(
        query@,
        match params {
            Some(p) => Some(p@),
            None => None,
        },
    ));
    r
}

/// An HTTP status that counts as success.
pub open spec fn is_success_status(status: u16) -> bool {
    200 <= status < 300
}

/// Success for a success status; otherwise a network error naming the status.
pub fn check_status(status: u16) -> (r: Result<(), VideoSearchError>)
    ensures
        r is Ok <==> is_success_status(status),
        r matches Err(e) ==> e matches VideoSearchError::NetworkError(m) && m@ == "HTTP status "@
            + decimal(status as nat),
{
    if 200 <= status && status < 300 {
        Ok(())
    } else {
        let m = String::from_str("HTTP status ").concat(decimal_string(status as usize).as_str());
        Err(VideoSearchError::NetworkError(m))
    }
}

} // verus!
