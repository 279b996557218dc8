use video_hound::engines::results_page::{parse_anchors, parse_link, parse_page, PageAnchor, RESULTS_PER_PAGE};
use video_hound::VideoSearchError;

fn anchor(href: &str, text: &str, trailing: Option<&str>) -> PageAnchor {
    PageAnchor {
        href: href.to_string(),
        text: text.to_string(),
        trailing_text: trailing.map(|t| t.to_string()),
    }
}

#[test]
fn page_without_qualifying_anchor_is_no_results() {
    let html = r#"<html><body><a href="/about">About</a><a href="?q=x">More</a><a href="https://duckduckgo.com/">Home</a></body></html>"#;
    assert_eq!(parse_page(html).unwrap_err(), VideoSearchError::NoResults);
    assert_eq!(parse_page("").unwrap_err(), VideoSearchError::NoResults);
}

#[test]
fn page_token_becomes_continuation() {
    let html = r#"<html><body><div><a href="https://example.com/x">  Example  </a></div>
        <form><input type="hidden" name="vqd" value="4-12345"></form></body></html>"#;
    let (results, next) = parse_page(html).unwrap();
    assert_eq!(results.len(), 1);
    assert_eq!(results[0].title, "Example");
    assert_eq!(results[0].domain, "example.com");
    let next = next.unwrap();
    assert_eq!(next.offset, 30);
    assert_eq!(next.page_token, "4-12345");
}

#[test]
fn page_without_token_has_no_continuation() {
    let html = r#"<p><a href="https://example.com/x">x</a></p>"#;
    let (_, next) = parse_page(html).unwrap();
    assert!(next.is_none());
}

#[test]
fn description_is_text_after_parent() {
    let html = r#"<body><div><a href="https://example.com/x">Title</a></div>   the description  </body>"#;
    let (results, _) = parse_page(html).unwrap();
    assert_eq!(results[0].description, "the description");
}

#[test]
fn parsing_twice_gives_identical_results() {
    let html = r#"<body><div><a href="https://a.example/1">One</a></div> d1
        <div><a href="https://youtu.be/AAAAAAAAAAA">Two</a></div> d2
        <input name="vqd" value="tok"></body>"#;
    let (first, first_next) = parse_page(html).unwrap();
    let (second, second_next) = parse_page(html).unwrap();
    assert_eq!(format!("{:?}", first), format!("{:?}", second));
    assert_eq!(format!("{:?}", first_next), format!("{:?}", second_next));
}

#[test]
fn internal_links_are_skipped() {
    assert!(parse_link(&anchor("/html/?q=a", "a", None)).is_none());
    assert!(parse_link(&anchor("?s=30", "b", None)).is_none());
    assert!(parse_link(&anchor("https://html.duckduckgo.com/html/", "c", None)).is_none());
}

#[test]
fn link_domain_falls_back_to_third_segment() {
    let r = parse_link(&anchor("notaurl//host.example/path", " t ", Some("\n desc\t"))).unwrap();
    assert_eq!(r.domain, "host.example");
    assert_eq!(r.title, "t");
    assert_eq!(r.description, "desc");
    let r = parse_link(&anchor("plain", "t", None)).unwrap();
    assert_eq!(r.domain, "");
    assert_eq!(r.description, "");
}

#[test]
fn link_domain_from_url_host() {
    let r = parse_link(&anchor("https://www.youtube.com/watch?v=dQw4w9WgXcQ", "Test Video", None)).unwrap();
    assert_eq!(r.domain, "www.youtube.com");
    assert_eq!(r.url, "https://www.youtube.com/watch?v=dQw4w9WgXcQ");
}

#[test]
fn parse_anchors_keeps_order_and_token() {
    let anchors = vec![
        anchor("/x", "skip", None),
        anchor("https://b.example/", "b", None),
        anchor("https://c.example/", "c", None),
    ];
    let (results, next) = parse_anchors(&anchors, Some("t".to_string())).unwrap();
    assert_eq!(results.iter().map(|r| r.title.as_str()).collect::<Vec<_>>(), vec!["b", "c"]);
    let next = next.unwrap();
    assert_eq!(next.offset, RESULTS_PER_PAGE);
    assert_eq!(next.page_token, "t");
    assert_eq!(parse_anchors(&anchors[..1], None).unwrap_err(), VideoSearchError::NoResults);
}
