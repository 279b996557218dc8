use video_hound::engines::pagination::{SearchSession, SearchStep};
use video_hound::engines::request::{check_status, decimal_string, form_fields};
use video_hound::models::{PageParams, RawSearchResult};
use video_hound::VideoSearchError;

fn result(title: &str) -> RawSearchResult {
    RawSearchResult {
        title: title.to_string(),
        url: format!("https://example.com/{}", title),
        description: String::new(),
        domain: "example.com".to_string(),
    }
}

fn token(t: &str) -> Option<PageParams> {
    Some(PageParams { offset: 30, page_token: t.to_string() })
}

fn pairs(v: &[(String, String)]) -> Vec<(&str, &str)> {
    v.iter().map(|(a, b)| (a.as_str(), b.as_str())).collect()
}

/// Runs a session over the given page outcomes; returns the number of pages taken and the end.
fn run(
    max_pages: usize,
    pages: Vec<Result<(Vec<RawSearchResult>, Option<PageParams>), VideoSearchError>>,
) -> (usize, Result<Vec<RawSearchResult>, VideoSearchError>) {
    let mut session = SearchSession::start(max_pages).unwrap();
    let mut fetched = 0;
    for page in pages {
        fetched += 1;
        match session.advance(page) {
            SearchStep::Fetch(s) => session = s,
            SearchStep::Finished(r) => return (fetched, r),
        }
    }
    panic!("the session asked for more pages than were given");
}

#[test]
fn zero_pages_is_config_error() {
    assert!(matches!(SearchSession::start(0), Err(VideoSearchError::ConfigError(_))));
}

#[test]
fn second_page_without_token_ends_after_two_fetches() {
    for max_pages in [2, 3, 10] {
        let pages = vec![
            Ok((vec![result("a")], token("v1"))),
            Ok((vec![result("b")], None)),
            Ok((vec![result("c")], token("v3"))),
        ];
        let (fetched, r) = run(max_pages, pages);
        assert_eq!(fetched, 2);
        let titles: Vec<String> = r.unwrap().into_iter().map(|x| x.title).collect();
        assert_eq!(titles, vec!["a", "b"]);
    }
}

#[test]
fn page_cap_bounds_fetches() {
    let pages = (0..5).map(|i| Ok((vec![result(&i.to_string())], token("t")))).collect();
    let (fetched, r) = run(3, pages);
    assert_eq!(fetched, 3);
    assert_eq!(r.unwrap().len(), 3);
    let (fetched, _) = run(1, vec![Ok((vec![result("x")], token("t")))]);
    assert_eq!(fetched, 1);
}

#[test]
fn network_failure_aborts_without_partial_results() {
    let pages = vec![
        Ok((vec![result("a")], token("v1"))),
        Err(VideoSearchError::NetworkError("HTTP status 503".to_string())),
    ];
    let (fetched, r) = run(5, pages);
    assert_eq!(fetched, 2);
    assert_eq!(r.unwrap_err(), VideoSearchError::NetworkError("HTTP status 503".to_string()));
}

#[test]
fn empty_pages_end_in_no_results() {
    let (_, r) = run(2, vec![Ok((vec![], None))]);
    assert_eq!(r.unwrap_err(), VideoSearchError::NoResults);
}

#[test]
fn status_503_is_network_error() {
    assert_eq!(
        check_status(503).unwrap_err(),
        VideoSearchError::NetworkError("HTTP status 503".to_string())
    );
    assert!(check_status(200).is_ok());
    assert!(check_status(204).is_ok());
    assert!(check_status(302).is_err());
}

#[test]
fn decimal_string_writes_digits() {
    assert_eq!(decimal_string(0), "0");
    assert_eq!(decimal_string(30), "30");
    assert_eq!(decimal_string(1234567), "1234567");
}

#[test]
fn first_form_has_query_and_region() {
    let session = SearchSession::start(2).unwrap();
    assert_eq!(pairs(&session.next_form("cats")), vec![("q", "cats"), ("kl", "wt-wt")]);
}

#[test]
fn continuation_form_has_offset_and_token() {
    let p = PageParams { offset: 30, page_token: "4-abc".to_string() };
    assert_eq!(
        pairs(&form_fields("dogs", Some(&p))),
        vec![("q", "dogs"), ("kl", "wt-wt"), ("s", "30"), ("vqd", "4-abc")]
    );
    let session = SearchSession::start(3).unwrap();
    let next = match session.advance(Ok((vec![result("a")], token("tok")))) {
        SearchStep::Fetch(s) => s,
        SearchStep::Finished(_) => panic!("expected another page"),
    };
    assert_eq!(
        pairs(&next.next_form("q1")),
        vec![("q", "q1"), ("kl", "wt-wt"), ("s", "30"), ("vqd", "tok")]
    );
}
