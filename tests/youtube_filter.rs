use video_hound::engines::results_page::parse_page;
use video_hound::filters::{LinkFilter, YouTubeFilter};
use video_hound::models::RawSearchResult;
use video_hound::VideoSearchError;

fn raw(url: &str, title: &str) -> RawSearchResult {
    RawSearchResult {
        title: title.to_string(),
        url: url.to_string(),
        description: String::new(),
        domain: "example.com".to_string(),
    }
}

#[test]
fn extract_id_from_watch_link() {
    assert_eq!(
        YouTubeFilter::extract_id("https://www.youtube.com/watch?v=dQw4w9WgXcQ"),
        Some("dQw4w9WgXcQ".to_string())
    );
}

#[test]
fn extract_id_from_short_link() {
    assert_eq!(YouTubeFilter::extract_id("https://youtu.be/abc_DEF-123?t=5"), Some("abc_DEF-123".to_string()));
}

#[test]
fn extract_id_from_shorts_link() {
    assert_eq!(
        YouTubeFilter::extract_id("https://youtube.com/shorts/ZZZZZZZZZZ1"),
        Some("ZZZZZZZZZZ1".to_string())
    );
}

#[test]
fn extract_id_prefers_watch_over_earlier_shorts() {
    let url = "https://youtube.com/shorts/AAAAAAAAAAA?next=youtube.com/watch?v=BBBBBBBBBBB";
    assert_eq!(YouTubeFilter::extract_id(url), Some("BBBBBBBBBBB".to_string()));
}

#[test]
fn extract_id_takes_leftmost_watch_link() {
    let url = "youtu.be/CCCCCCCCCCC youtube.com/watch?v=DDDDDDDDDDD";
    assert_eq!(YouTubeFilter::extract_id(url), Some("CCCCCCCCCCC".to_string()));
}

#[test]
fn extract_id_rejects_short_identifier() {
    assert_eq!(YouTubeFilter::extract_id("https://www.youtube.com/watch?v=short"), None);
    assert_eq!(YouTubeFilter::extract_id("https://vimeo.com/123456789012"), None);
    assert_eq!(YouTubeFilter::extract_id(""), None);
}

#[test]
fn extract_id_skips_failed_prefix_to_later_match() {
    let url = "youtube.com/watch?v=bad! youtube.com/watch?v=EEEEEEEEEEE";
    assert_eq!(YouTubeFilter::extract_id(url), Some("EEEEEEEEEEE".to_string()));
}

#[test]
fn thumbnails_are_four_tiers_in_order() {
    assert_eq!(
        YouTubeFilter::generate_thumbnails("dQw4w9WgXcQ"),
        vec![
            "https://img.youtube.com/vi/dQw4w9WgXcQ/default.jpg".to_string(),
            "https://img.youtube.com/vi/dQw4w9WgXcQ/mqdefault.jpg".to_string(),
            "https://img.youtube.com/vi/dQw4w9WgXcQ/hqdefault.jpg".to_string(),
            "https://img.youtube.com/vi/dQw4w9WgXcQ/maxresdefault.jpg".to_string(),
        ]
    );
}

#[test]
fn filter_keeps_order_and_duplicates() {
    let results = vec![
        raw("https://youtu.be/11111111111", "one"),
        raw("https://example.com/page", "none"),
        raw("https://www.youtube.com/watch?v=22222222222", "two"),
        raw("https://youtu.be/11111111111", "again"),
    ];
    let videos = YouTubeFilter.filter(&results).unwrap();
    let ids: Vec<&str> = videos.iter().map(|v| v.id.as_str()).collect();
    assert_eq!(ids, vec!["11111111111", "22222222222", "11111111111"]);
    assert_eq!(videos[1].title, "two");
    assert_eq!(videos[1].source_domain, "example.com");
    assert_eq!(videos[1].platform, "youtube");
}

#[test]
fn filter_without_videos_is_no_results() {
    let results = vec![raw("https://example.com/a", "a")];
    assert_eq!(YouTubeFilter.filter(&results).unwrap_err(), VideoSearchError::NoResults);
    assert_eq!(YouTubeFilter.filter(&[]).unwrap_err(), VideoSearchError::NoResults);
}

#[test]
fn supported_domains_lists_youtube() {
    assert_eq!(YouTubeFilter.supported_domains(), &["youtube.com", "youtu.be"]);
}

#[test]
fn single_watch_anchor_gives_one_video() {
    let html = r#"<html><body><div><a href="https://www.youtube.com/watch?v=dQw4w9WgXcQ">Test Video</a></div></body></html>"#;
    let (results, _) = parse_page(html).unwrap();
    let videos = YouTubeFilter.filter(&results).unwrap();
    assert_eq!(videos.len(), 1);
    let v = &videos[0];
    assert_eq!(v.platform, "youtube");
    assert_eq!(v.id, "dQw4w9WgXcQ");
    assert_eq!(v.title, "Test Video");
    assert_eq!(v.url, "https://www.youtube.com/watch?v=dQw4w9WgXcQ");
    assert_eq!(v.source_domain, "www.youtube.com");
    assert_eq!(v.thumbnails.len(), 4);
    assert!(v.thumbnails[0].ends_with("/default.jpg"));
    assert!(v.thumbnails[1].ends_with("mqdefault.jpg"));
    assert!(v.thumbnails[2].ends_with("hqdefault.jpg"));
    assert!(v.thumbnails[3].ends_with("maxresdefault.jpg"));
}

#[test]
fn parse_then_filter_one_video_per_accepted_anchor() {
    let html = r#"<html><body>
        <p><a href="/html/?q=next">Next</a></p>
        <p><a href="https://duckduckgo.com/y.js?u=youtube.com/watch?v=AAAAAAAAAAA">Ad</a></p>
        <p><a href="https://www.youtube.com/watch?v=BBBBBBBBBBB">First</a></p>
        <p><a href="https://example.org/article">Article</a></p>
        <p><a href="https://www.youtube.com/shorts/CCCCCCCCCCC">Second</a></p>
        </body></html>"#;
    let (results, _) = parse_page(html).unwrap();
    assert_eq!(results.len(), 3);
    let videos = YouTubeFilter.filter(&results).unwrap();
    let ids: Vec<&str> = videos.iter().map(|v| v.id.as_str()).collect();
    assert_eq!(ids, vec!["BBBBBBBBBBB", "CCCCCCCCCCC"]);
    for v in &videos {
        assert_eq!(v.id.len(), 11);
        assert_eq!(v.thumbnails.len(), 4);
    }
}
