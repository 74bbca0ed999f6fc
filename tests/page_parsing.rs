use nitter_scraper::{
    account_state, cursor_from_link, parse_counter, parse_nitter_html, parse_nitter_single,
    parse_page, parse_tweet_time, NitterCursor, NitterError,
};

const TIMELINE: &str = r##"<html><body><div class="timeline">
<div class="timeline-item">
  <div class="tweet-body">
    <div class="tweet-header">
      <a class="fullname" href="/alice" title="Alice Example">Alice Example</a>
      <span class="tweet-date"><a href="/alice/status/1234567890#m" title="Jan 5, 2021 · 3:04 PM UTC">Jan 5</a></span>
    </div>
    <div class="tweet-content media-body">Hello <a href="https://example.com/x">example</a> and <a href="/bob">@bob</a></div>
    <div class="attachments"><div class="attachment image"><a class="still-image" href="/pic/orig/media%2FAbC-12_x.jpg">pic</a></div></div>
    <div class="quote">
      <a class="quote-link" href="/carol/status/99#m"></a>
      <div class="quote-text">Quoted <a href="https://quoted.example/">q</a></div>
      <div class="attachments"><div class="attachment image"><a class="still-image" href="/pic/orig/media%2FQuoted.png">qpic</a></div></div>
    </div>
    <div class="tweet-stats">
      <span class="tweet-stat"><div class="icon-container"><span class="icon-comment"></span> 1,234</div></span>
      <span class="tweet-stat"><div class="icon-container"><span class="icon-retweet"></span> 56</div></span>
      <span class="tweet-stat"><div class="icon-container"><span class="icon-quote"></span> n/a</div></span>
    </div>
  </div>
</div>
<div class="timeline-item">
  <div class="tweet-body">
    <div class="retweet-header">retweeted</div>
    <div class="tweet-header">
      <a class="fullname" href="/dave" title="Dave">Dave</a>
      <span class="tweet-date"><a href="/dave/status/1234567000#m" title="Jan 4, 2021 · 11:59 PM UTC">Jan 4</a></span>
    </div>
    <div class="replying-to">Replying to @alice</div>
    <div class="tweet-content media-body">Second</div>
  </div>
</div>
<div class="timeline-item show-more"><a href="?cursor=TOP">Load newest</a></div>
<div class="show-more"><a href="?cursor=NEXT">Load more</a></div>
</div></body></html>"##;

#[test]
fn timeline_page_yields_posts_and_cursor() {
    let (tweets, cursor) = parse_page(TIMELINE).expect("page parses");
    assert_eq!(tweets.len(), 2);
    let t = &tweets[0];
    assert_eq!(t.id, 1234567890);
    assert_eq!(t.id_str, "1234567890");
    assert_eq!(t.user.full_name, "Alice Example");
    assert_eq!(t.user.screen_name, "alice");
    assert_eq!(t.full_text, "Hello example and @bob");
    assert_eq!(t.created_at_ts, 1609859040);
    assert!(!t.retweet && !t.reply && t.quote && !t.pinned);
    assert_eq!(t.stats.comment, 1234);
    assert_eq!(t.stats.retweet, 56);
    assert_eq!(t.stats.quote, 0);
    assert_eq!(t.stats.heart, 0);
    let second = &tweets[1];
    assert_eq!(second.user.screen_name, "dave");
    assert!(second.retweet && second.reply && !second.quote);
    assert!(second.links.is_empty() && second.images.is_empty());
    match cursor {
        NitterCursor::More(c) => assert_eq!(c, "?cursor=NEXT"),
        other => panic!("unexpected cursor {:?}", other),
    }
}

#[test]
fn quoted_content_stays_out_of_the_outer_post() {
    let (tweets, _) = parse_page(TIMELINE).expect("page parses");
    let t = &tweets[0];
    assert_eq!(t.links, vec!["https://example.com/x".to_string()]);
    assert_eq!(t.images, vec!["https://pbs.twimg.com/media/AbC-12_x.jpg".to_string()]);
}

#[test]
fn page_without_load_more_ends_pagination() {
    let html = TIMELINE.replace(r#"<div class="show-more"><a href="?cursor=NEXT">Load more</a></div>"#, "");
    let (_, cursor) = parse_nitter_html(html).expect("page parses");
    assert!(matches!(cursor, NitterCursor::End));
}

#[test]
fn protected_marker_is_a_terminal_state() {
    let html = r#"<html><body><div class="timeline-protected"><h2>This account's tweets are protected.</h2></div>
<div class="timeline-item"><div class="tweet-content">never read</div></div></body></html>"#;
    assert!(matches!(parse_page(html), Err(NitterError::ProtectedAccount)));
}

#[test]
fn suspended_panel_is_a_terminal_state() {
    let html = r#"<html><body><div class="error-panel"><span>User "x" has been suspended</span></div></body></html>"#;
    assert!(matches!(parse_page(html), Err(NitterError::SuspendedAccount)));
}

#[test]
fn not_found_panel_is_a_terminal_state() {
    let html = r#"<html><body><div class="error-panel"><span>User "x" not found</span></div></body></html>"#;
    assert!(matches!(parse_page(html), Err(NitterError::NotFound)));
}

#[test]
fn other_error_panel_is_no_terminal_state() {
    let html = r#"<html><body><div class="error-panel"><span>No items found</span></div></body></html>"#;
    let (tweets, cursor) = parse_page(html).expect("page parses");
    assert!(tweets.is_empty());
    assert!(matches!(cursor, NitterCursor::End));
}

#[test]
fn classification_order_puts_protected_first() {
    assert!(matches!(
        account_state(true, Some("has been suspended".to_string())),
        Some(NitterError::ProtectedAccount)
    ));
    assert!(matches!(
        account_state(false, Some("has been suspended, not found".to_string())),
        Some(NitterError::SuspendedAccount)
    ));
    assert!(account_state(false, None).is_none());
}

#[test]
fn missing_mandatory_fields_are_named() {
    let no_name = TIMELINE.replace(r#"class="fullname""#, r#"class="other""#);
    match parse_page(&no_name) {
        Err(NitterError::Parse(m)) => assert_eq!(m, "missing full_name"),
        other => panic!("unexpected {:?}", other),
    }
    let no_time = TIMELINE.replace("Jan 5, 2021 · 3:04 PM UTC", "yesterday");
    match parse_page(&no_time) {
        Err(NitterError::Parse(m)) => assert_eq!(m, "missing time"),
        other => panic!("unexpected {:?}", other),
    }
    let no_body = TIMELINE.replace("tweet-content media-body\">Hello", "other\">Hello");
    match parse_page(&no_body) {
        Err(NitterError::Parse(m)) => assert_eq!(m, "missing body"),
        other => panic!("unexpected {:?}", other),
    }
    let long_id = TIMELINE.replace("1234567890#m", "999999999999999999999999999999999999999999#m");
    match parse_page(&long_id) {
        Err(NitterError::Parse(m)) => {
            assert_eq!(m, "invalid id \"999999999999999999999999999999999999999999\"")
        }
        other => panic!("unexpected {:?}", other),
    }
    let no_link = TIMELINE.replace("/alice/status/1234567890#m", "/alice");
    match parse_page(&no_link) {
        Err(NitterError::Parse(m)) => assert_eq!(m, "missing screen_name"),
        other => panic!("unexpected {:?}", other),
    }
}

#[test]
fn single_page_reads_the_main_post() {
    let html = r#"<html><body><div class="main-tweet"><div class="timeline-item">
<a class="fullname" title="Erin">Erin</a>
<span class="tweet-date"><a href="/erin/status/42" title="Dec 31, 2020 · 12:00 AM UTC">x</a></span>
<div class="tweet-content">Main</div></div></div>
<div class="replies"><div class="timeline-item"><div class="tweet-content">reply</div></div></div></body></html>"#;
    let (t, cursor) = parse_nitter_single(html.to_string()).expect("page parses");
    assert_eq!(t.id, 42);
    assert_eq!(t.full_text, "Main");
    assert_eq!(t.created_at_ts, 1609372800);
    assert!(matches!(cursor, NitterCursor::End));
    assert!(matches!(parse_nitter_single("<html></html>".to_string()), Err(NitterError::Parse(_))));
}

#[test]
fn timestamp_reads_as_utc_and_renders_stably() {
    let (text, ts) = parse_tweet_time("Jan 5, 2021 · 3:04 PM UTC").expect("title parses");
    assert_eq!(ts, 1609859040);
    assert_eq!(text, "Tue, 05 Jan 2021 15:04:00 +0000");
    let (again, ts_again) = parse_tweet_time("Jan 5, 2021 · 3:04 PM UTC").expect("title parses");
    assert_eq!((again, ts_again), (text, ts));
    assert!(parse_tweet_time("2021-01-05 15:04").is_none());
}

#[test]
fn counter_text_drops_separators() {
    assert_eq!(parse_counter("1,234"), 1234);
    assert_eq!(parse_counter("  7 "), 7);
    assert_eq!(parse_counter("n/a"), 0);
    assert_eq!(parse_counter(""), 0);
    assert_eq!(parse_counter("99999999999999999999999"), 0);
}

#[test]
fn cursor_follows_the_load_more_link() {
    assert!(matches!(cursor_from_link(None), NitterCursor::End));
    assert!(matches!(cursor_from_link(Some("?cursor=a".to_string())), NitterCursor::More(c) if c == "?cursor=a"));
}

#[test]
fn empty_timeline_is_ok_and_ends() {
    let (tweets, cursor) =
        parse_nitter_html("<html><body><div class='timeline'></div></body></html>".to_string())
            .expect("page parses");
    assert!(tweets.is_empty());
    assert!(matches!(cursor, NitterCursor::End));
}

#[test]
fn twelve_o_clock_reads_by_its_period() {
    let (_, midnight) = parse_tweet_time("Dec 31, 2020 · 12:00 AM UTC").expect("title parses");
    let (_, noon) = parse_tweet_time("Dec 31, 2020 · 12:00 PM UTC").expect("title parses");
    assert_eq!(midnight, 1609372800);
    assert_eq!(noon, 1609372800 + 12 * 3600);
    assert!(parse_tweet_time("Feb 30, 2021 · 1:00 PM UTC").is_none());
    assert!(parse_tweet_time("Jan 1, 1850 · 1:00 PM UTC").is_none());
}

#[test]
fn account_markers_count_inside_quoted_content_too() {
    let html = r#"<html><body><div class="timeline"><div class="timeline-item"><div class="quote">
<a class="quote-link" href="/x/status/1"></a><div class="error-panel"><span>User has been suspended</span></div>
</div></div></div></body></html>"#;
    assert!(matches!(parse_page(html), Err(NitterError::SuspendedAccount)));
}

#[test]
fn rfc2822_text_pads_fields_and_names_the_weekday() {
    assert_eq!(
        parse_tweet_time("Mar 9, 1999 · 7:05 AM UTC"),
        Some(("Tue, 09 Mar 1999 07:05:00 +0000".to_string(), 920963100))
    );
    assert_eq!(
        parse_tweet_time("Jan 1, 1900 · 12:00 AM UTC"),
        Some(("Mon, 01 Jan 1900 00:00:00 +0000".to_string(), -2208988800))
    );
}
