use nitter_scraper::{
    backoff_secs, on_fetch_event, percent_encode, FetchAction, FetchEvent, NitterError,
    NitterQuery, MAX_ATTEMPTS,
};

#[test]
fn backoff_doubles_from_two_up_to_three_hundred() {
    let delays: Vec<u64> = (0..9).map(backoff_secs).collect();
    assert_eq!(delays, vec![2, 4, 8, 16, 32, 64, 128, 256, 300]);
    assert_eq!(backoff_secs(30), 300);
}

#[test]
fn nine_rate_limits_then_success() {
    let mut sleeps = vec![];
    let mut retries: u32 = 0;
    let mut accepted = false;
    let responses = [429u16, 429, 429, 429, 429, 429, 429, 429, 429, 200];
    for status in responses {
        match on_fetch_event(FetchEvent::Status(status), retries) {
            FetchAction::Retry(d) => {
                sleeps.push(d);
                retries += 1;
            }
            FetchAction::Accept => {
                accepted = true;
                break;
            }
            FetchAction::Fail(e) => panic!("unexpected failure {:?}", e),
        }
    }
    assert!(accepted);
    assert_eq!(sleeps, vec![2, 4, 8, 16, 32, 64, 128, 256, 300]);
}

#[test]
fn tenth_rate_limit_is_a_network_error() {
    assert_eq!(MAX_ATTEMPTS, 10);
    match on_fetch_event(FetchEvent::Status(429), 9) {
        FetchAction::Fail(NitterError::Network(m)) => assert_eq!(m, "unexpected HTTP status 429"),
        other => panic!("unexpected {:?}", other),
    }
}

#[test]
fn other_statuses_are_not_retried() {
    assert!(matches!(on_fetch_event(FetchEvent::Status(404), 0), FetchAction::Fail(NitterError::NotFound)));
    match on_fetch_event(FetchEvent::Status(503), 0) {
        FetchAction::Fail(NitterError::Network(m)) => assert_eq!(m, "unexpected HTTP status 503"),
        other => panic!("unexpected {:?}", other),
    }
    match on_fetch_event(FetchEvent::Transport("connection refused".to_string()), 3) {
        FetchAction::Fail(NitterError::Network(m)) => assert_eq!(m, "connection refused"),
        other => panic!("unexpected {:?}", other),
    }
    assert!(matches!(on_fetch_event(FetchEvent::Status(204), 2), FetchAction::Accept));
}

#[test]
fn percent_encoding_escapes_every_other_byte() {
    assert_eq!(percent_encode("abcXYZ019"), "abcXYZ019");
    assert_eq!(percent_encode("a b&c-d"), "a%20b%26c%2Dd");
    assert_eq!(percent_encode("é"), "%C3%A9");
    assert_eq!(percent_encode(""), "");
}

#[test]
fn queries_map_to_paths() {
    let user = |q: fn(String) -> NitterQuery| q("jack".to_string()).encode();
    assert_eq!(user(|u| NitterQuery::UserTimeline { username: u }), ("/jack".to_string(), String::new()));
    assert_eq!(
        user(|u| NitterQuery::UserTimelineWithReplies { username: u }),
        ("/jack/with_replies".to_string(), String::new())
    );
    assert_eq!(user(|u| NitterQuery::UserMedia { username: u }), ("/jack/media".to_string(), String::new()));
    assert_eq!(
        NitterQuery::UserSearch { username: "jack".to_string(), query: "#1".to_string() }.encode(),
        ("/jack/search".to_string(), "f=tweets&q=%231".to_string())
    );
    assert_eq!(
        NitterQuery::Search { query: "a+b".to_string() }.encode(),
        ("/search".to_string(), "f=tweets&q=a%2Bb".to_string())
    );
}
