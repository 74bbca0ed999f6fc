use nitter_scraper::{
    NitterCursor, NitterError, NitterQuery, NitterScraper, ScrapeConfig, Stats, StreamStatus,
    StreamStep, Tweet, User,
};

fn post(id: u128, ts: i64, pinned: bool, retweet: bool) -> Tweet {
    Tweet {
        id,
        id_str: id.to_string(),
        created_at: String::new(),
        created_at_ts: ts,
        user: User { full_name: "A".to_string(), screen_name: "a".to_string() },
        full_text: String::new(),
        images: vec![],
        video: None,
        links: vec![],
        retweet,
        reply: false,
        quote: false,
        pinned,
        stats: Stats { comment: 0, retweet: 0, quote: 0, heart: 0 },
    }
}

fn config() -> ScrapeConfig {
    ScrapeConfig { limit: None, min_id: None, reorder_pinned: false, skip_retweets: false }
}

fn timeline() -> NitterQuery {
    NitterQuery::UserTimeline { username: "a".to_string() }
}

/// Runs a stream over the given pages, returning the emitted ids, the final
/// error if any, and the fetched URLs.
fn run(
    mut s: NitterScraper,
    mut pages: Vec<Result<(Vec<Tweet>, NitterCursor), NitterError>>,
) -> (Vec<u128>, Option<NitterError>, Vec<String>) {
    pages.reverse();
    let mut ids = vec![];
    let mut failure = None;
    let mut urls = vec![];
    loop {
        match s.next_step() {
            StreamStep::Emit(t) => ids.push(t.id),
            StreamStep::Fail(e) => failure = Some(e),
            StreamStep::Fetch(url) => {
                urls.push(url);
                let page = pages.pop().expect("a fetch with no page left");
                s.feed_page(page);
            }
            StreamStep::Done => break,
        }
    }
    (ids, failure, urls)
}

#[test]
fn posts_come_out_in_page_order_across_pages() {
    let s = NitterScraper::new("https://nitter.example", &timeline(), config());
    let pages = vec![
        Ok((vec![post(9, 90, false, false), post(8, 80, false, false)], NitterCursor::More("?cursor=X".to_string()))),
        Ok((vec![post(7, 70, false, false)], NitterCursor::End)),
    ];
    let (ids, failure, urls) = run(s, pages);
    assert_eq!(ids, vec![9, 8, 7]);
    assert!(failure.is_none());
    assert_eq!(urls, vec!["https://nitter.example/a".to_string(), "https://nitter.example/a?cursor=X".to_string()]);
}

#[test]
fn min_id_floor_cuts_off_older_posts() {
    let s = NitterScraper::new("https://n", &timeline(), ScrapeConfig { min_id: Some(35), ..config() });
    let pages = vec![Ok((
        vec![post(50, 5, false, false), post(40, 4, false, false), post(30, 3, false, false), post(60, 2, false, false)],
        NitterCursor::End,
    ))];
    let (ids, _, _) = run(s, pages);
    assert_eq!(ids, vec![50, 40]);
}

#[test]
fn limit_bounds_the_sequence() {
    let mut s = NitterScraper::new("https://n", &timeline(), ScrapeConfig { limit: Some(2), ..config() });
    assert!(matches!(s.next_step(), StreamStep::Fetch(_)));
    s.feed_page(Ok((vec![post(3, 3, false, false), post(2, 2, false, false), post(1, 1, false, false)], NitterCursor::More("?c".to_string()))));
    assert!(matches!(s.next_step(), StreamStep::Emit(t) if t.id == 3));
    assert!(matches!(s.next_step(), StreamStep::Emit(t) if t.id == 2));
    assert!(matches!(s.next_step(), StreamStep::Done));
    assert_eq!(s.emitted(), 2);
    assert_eq!(s.status(), StreamStatus::NormalEnd);
    assert!(matches!(s.next_step(), StreamStep::Done));
}

#[test]
fn zero_limit_fetches_nothing() {
    let mut s = NitterScraper::new("https://n", &timeline(), ScrapeConfig { limit: Some(0), ..config() });
    assert!(matches!(s.next_step(), StreamStep::Done));
}

#[test]
fn skipped_retweets_never_come_out() {
    let s = NitterScraper::new("https://n", &timeline(), ScrapeConfig { skip_retweets: true, ..config() });
    let pages = vec![
        Ok((vec![post(5, 5, false, true), post(4, 4, false, true)], NitterCursor::More("?c=1".to_string()))),
        Ok((vec![post(3, 3, false, false), post(2, 2, false, true)], NitterCursor::End)),
    ];
    let (ids, _, urls) = run(s, pages);
    assert_eq!(ids, vec![3]);
    assert_eq!(urls.len(), 2);
}

#[test]
fn protected_account_ends_without_an_item() {
    let s = NitterScraper::new("https://n", &timeline(), config());
    let mut s = s;
    assert!(matches!(s.next_step(), StreamStep::Fetch(_)));
    s.feed_page(Err(NitterError::ProtectedAccount));
    assert!(matches!(s.next_step(), StreamStep::Done));
    assert_eq!(s.status(), StreamStatus::ProtectedEnd);
    assert_eq!(s.emitted(), 0);
}

#[test]
fn operational_error_is_the_final_item() {
    let s = NitterScraper::new("https://n", &timeline(), config());
    let pages = vec![
        Ok((vec![post(2, 2, false, false)], NitterCursor::More("?c".to_string()))),
        Err(NitterError::Network("timed out".to_string())),
    ];
    let (ids, failure, urls) = run(s, pages);
    assert_eq!(ids, vec![2]);
    assert!(matches!(failure, Some(NitterError::Network(m)) if m == "timed out"));
    assert_eq!(urls.len(), 2);
}

#[test]
fn pinned_post_moves_to_its_place_in_time() {
    let s = NitterScraper::new("https://n", &timeline(), ScrapeConfig { reorder_pinned: true, ..config() });
    let pages = vec![Ok((
        vec![post(1, 150, true, false), post(30, 300, false, false), post(20, 200, false, false), post(10, 100, false, false)],
        NitterCursor::End,
    ))];
    let (ids, _, _) = run(s, pages);
    assert_eq!(ids, vec![30, 20, 1, 10]);
}

#[test]
fn oldest_pinned_post_comes_last() {
    let s = NitterScraper::new("https://n", &timeline(), ScrapeConfig { reorder_pinned: true, ..config() });
    let pages = vec![
        Ok((vec![post(1, 50, true, false), post(30, 300, false, false)], NitterCursor::More("?c".to_string()))),
        Ok((vec![post(20, 200, false, false), post(10, 100, false, false)], NitterCursor::End)),
    ];
    let (ids, _, _) = run(s, pages);
    assert_eq!(ids, vec![30, 20, 10, 1]);
}

#[test]
fn pinned_post_stays_first_without_reordering() {
    let s = NitterScraper::new("https://n", &timeline(), config());
    let pages = vec![Ok((vec![post(1, 150, true, false), post(30, 300, false, false)], NitterCursor::End))];
    let (ids, _, _) = run(s, pages);
    assert_eq!(ids, vec![1, 30]);
}

#[test]
fn pinned_post_below_the_floor_is_dropped() {
    let s = NitterScraper::new(
        "https://n",
        &timeline(),
        ScrapeConfig { reorder_pinned: true, min_id: Some(5), ..config() },
    );
    let pages = vec![Ok((vec![post(1, 150, true, false), post(30, 300, false, false), post(20, 100, false, false)], NitterCursor::End))];
    let (ids, _, _) = run(s, pages);
    assert_eq!(ids, vec![30, 20]);
}

#[test]
fn search_stream_fetches_encoded_query() {
    let q = NitterQuery::Search { query: "rust lang".to_string() };
    let mut s = NitterScraper::new("https://n", &q, config());
    match s.next_step() {
        StreamStep::Fetch(url) => assert_eq!(url, "https://n/search?f=tweets&q=rust%20lang"),
        other => panic!("unexpected {:?}", other),
    }
}

#[test]
fn protected_page_ends_the_stream_with_no_items() {
    let html = r#"<html><body><div class="timeline-protected">protected</div>
<div class="timeline-item"><div class="tweet-content">hidden</div></div></body></html>"#;
    let mut s = NitterScraper::new("https://n", &timeline(), config());
    let mut items = 0;
    loop {
        match s.next_step() {
            StreamStep::Emit(_) | StreamStep::Fail(_) => items += 1,
            StreamStep::Fetch(_) => s.feed_page(nitter_scraper::parse_page(html)),
            StreamStep::Done => break,
        }
    }
    assert_eq!(items, 0);
    assert_eq!(s.status(), StreamStatus::ProtectedEnd);
}
