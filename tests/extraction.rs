use nitter_scraper::{
    contains, media_files, media_links, outbound_links, parse_u128, stat_of, status_parts,
    strip_commas, tweet_from_raw, CivilTime, NitterError, RawTweet, StatBox, StatKind,
};

fn chars(s: &str) -> Vec<char> {
    s.chars().collect()
}

fn strings(v: &[&str]) -> Vec<String> {
    v.iter().map(|s| s.to_string()).collect()
}

fn raw() -> RawTweet {
    RawTweet {
        full_name: Some("Alice".to_string()),
        screen_name: Some("alice".to_string()),
        id_str: Some("77".to_string()),
        body: Some("hi".to_string()),
        body_hrefs: strings(&["/alice", "https://a.example", "#tag", "/search?q=x"]),
        media_files: strings(&["F1.jpg"]),
        created: Some(("Tue, 05 Jan 2021 15:04:00 +0000".to_string(), 1609859040)),
        retweet: false,
        reply: true,
        quote: false,
        pinned: true,
        stat_boxes: vec![
            StatBox { comment: false, retweet: false, quote: false, heart: true, text: Some(" 2,000 ".to_string()) },
            StatBox { comment: true, retweet: false, quote: false, heart: false, text: None },
        ],
    }
}

#[test]
fn permalink_names_handle_and_id() {
    let (name, id) = status_parts("/jack/status/20#m");
    assert_eq!(name.as_deref(), Some("jack"));
    assert_eq!(id.as_deref(), Some("20"));
    let (name, id) = status_parts("/jack");
    assert!(name.is_none() && id.is_none());
}

#[test]
fn picture_links_name_media_files() {
    let files = media_files(&strings(&["/pic/orig/media%2FAbC-1_x.jpg", "/pic/thumb/other.png", "/pic/orig/media%2FZ.png"]));
    assert_eq!(files, strings(&["AbC-1_x.jpg", "Z.png"]));
    assert_eq!(media_links(&files), strings(&["https://pbs.twimg.com/media/AbC-1_x.jpg", "https://pbs.twimg.com/media/Z.png"]));
}

#[test]
fn only_outbound_links_are_kept() {
    let hrefs = strings(&["/alice", "https://a.example", "", "#tag"]);
    assert_eq!(outbound_links(&hrefs), strings(&["https://a.example", "", "#tag"]));
}

#[test]
fn raw_post_becomes_a_post() {
    let t = tweet_from_raw(raw()).expect("all mandatory fields are there");
    assert_eq!(t.id, 77);
    assert_eq!(t.id_str, "77");
    assert_eq!(t.user.screen_name, "alice");
    assert_eq!(t.links, strings(&["https://a.example", "#tag"]));
    assert_eq!(t.images, strings(&["https://pbs.twimg.com/media/F1.jpg"]));
    assert_eq!(t.created_at_ts, 1609859040);
    assert_eq!(t.stats.heart, 2000);
    assert_eq!(t.stats.comment, 0);
    assert_eq!(t.stats.retweet, 0);
    assert!(t.reply && t.pinned && !t.retweet && !t.quote);
    assert!(t.video.is_none());
}

#[test]
fn first_missing_field_is_reported() {
    let mut r = raw();
    r.body = None;
    r.created = None;
    assert!(matches!(tweet_from_raw(r), Err(NitterError::Parse(m)) if m == "missing body"));
    let mut r = raw();
    r.id_str = Some("+12".to_string());
    let t = tweet_from_raw(r).expect("a plus sign reads");
    assert_eq!((t.id, t.id_str.as_str()), (12, "12"));
    let mut r = raw();
    r.id_str = Some("007".to_string());
    let t = tweet_from_raw(r).expect("leading zeros read");
    assert_eq!((t.id, t.id_str.as_str()), (7, "7"));
    let mut r = raw();
    r.id_str = Some("1x".to_string());
    assert!(matches!(tweet_from_raw(r), Err(NitterError::Parse(m)) if m == "invalid id \"1x\""));
    let mut r = raw();
    r.screen_name = None;
    r.id_str = None;
    assert!(matches!(tweet_from_raw(r), Err(NitterError::Parse(m)) if m == "missing screen_name"));
    let mut r = raw();
    r.id_str = None;
    assert!(matches!(tweet_from_raw(r), Err(NitterError::Parse(m)) if m == "missing id"));
    let mut r = raw();
    r.created = None;
    assert!(matches!(tweet_from_raw(r), Err(NitterError::Parse(m)) if m == "missing time"));
}

#[test]
fn first_box_with_the_icon_gives_the_counter() {
    let boxes = vec![
        StatBox { comment: false, retweet: true, quote: false, heart: false, text: Some("3".to_string()) },
        StatBox { comment: false, retweet: true, quote: false, heart: false, text: Some("9".to_string()) },
    ];
    assert_eq!(stat_of(&boxes, StatKind::Retweet), 3);
    assert_eq!(stat_of(&boxes, StatKind::Quote), 0);
}

#[test]
fn decimal_reading_matches_integer_parsing() {
    assert_eq!(parse_u128(&chars("0")), Some(0));
    assert_eq!(parse_u128(&chars("340282366920938463463374607431768211455")), Some(u128::MAX));
    assert_eq!(parse_u128(&chars("340282366920938463463374607431768211456")), None);
    assert_eq!(parse_u128(&chars("")), None);
    assert_eq!(parse_u128(&chars("+")), None);
    assert_eq!(parse_u128(&chars("-1")), None);
    assert_eq!(strip_commas(&chars("1,2,,3")), chars("123"));
    assert!(contains(&chars("user has been suspended"), &chars("has been suspended")));
    assert!(!contains(&chars("has been"), &chars("has been suspended")));
    assert!(contains(&chars("x"), &chars("")));
}

#[test]
fn civil_time_counts_seconds_from_the_epoch() {
    let t = |year, month, day, hour, minute, second| CivilTime { year, month, day, hour, minute, second };
    assert_eq!(t(1970, 1, 1, 0, 0, 0).unix_timestamp(), 0);
    assert_eq!(t(2021, 1, 5, 15, 4, 0).unix_timestamp(), 1609859040);
    assert_eq!(t(2000, 3, 1, 0, 0, 0).unix_timestamp(), 951868800);
    assert_eq!(t(1969, 12, 31, 23, 59, 59).unix_timestamp(), -1);
    assert_eq!(t(1600, 2, 29, 0, 0, 0).unix_timestamp(), -11670998400);
}
