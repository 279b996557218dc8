use video_hound::engines::pacing::RateLimiter;
use video_hound::engines::request::{browser_headers, random_user_agent, user_agent, USER_AGENT_COUNT};

#[test]
fn first_request_goes_at_once() {
    let mut limiter = RateLimiter::new();
    assert_eq!(limiter.delay_before_next(1_000), 0);
}

#[test]
fn recent_request_waits_out_the_shortest_gap() {
    for _ in 0..50 {
        let mut limiter = RateLimiter::new();
        assert_eq!(limiter.delay_before_next(10_000), 0);
        let delay = limiter.delay_before_next(10_500);
        assert!((1_600..2_000).contains(&delay), "delay {}", delay);
        assert!(10_500 + delay >= 10_000 + 2_000);
    }
}

#[test]
fn consecutive_sends_are_two_seconds_apart() {
    let mut limiter = RateLimiter::new();
    let mut now = 0u64;
    let mut last_send = now + limiter.delay_before_next(now);
    for step in [0u64, 10, 700, 1_999, 2_000, 3_500, 4_999, 5_000, 9_000] {
        now = last_send + step;
        let send = now + limiter.delay_before_next(now);
        assert!(send >= last_send + 2_000, "gap {}", send - last_send);
        last_send = send;
    }
}

#[test]
fn middle_gap_waits_below_long_gap() {
    for _ in 0..50 {
        let mut limiter = RateLimiter::new();
        limiter.delay_before_next(0);
        let delay = limiter.delay_before_next(3_000);
        assert!(delay < 2_000);
    }
}

#[test]
fn long_pause_goes_at_once() {
    let mut limiter = RateLimiter::new();
    limiter.delay_before_next(0);
    assert_eq!(limiter.delay_before_next(6_000), 0);
    assert_eq!(limiter.delay_before_next(12_000), 0);
}

#[test]
fn user_agent_comes_from_pool() {
    let pool: Vec<&str> = (0..USER_AGENT_COUNT).map(user_agent).collect();
    assert_eq!(pool.len(), 4);
    for _ in 0..20 {
        let ua = random_user_agent();
        assert!(pool.contains(&ua.as_str()));
    }
}

#[test]
fn browser_headers_are_fixed() {
    let headers = browser_headers();
    assert_eq!(headers.len(), 10);
    assert_eq!(headers[0].0, "Accept");
    assert_eq!(headers[3], ("Referer", "https://html.duckduckgo.com/"));
    assert_eq!(headers[9], ("Sec-Fetch-User", "?1"));
}
