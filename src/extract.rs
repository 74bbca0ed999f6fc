use vstd::prelude::*;

use crate::error::NitterError;
use crate::pattern::{named_capture, named_capture_of};
use crate::text::{
    chars_of, decimal_of, decimal_string, decimal_text, parse_u128, strip_commas, trim_of,
    trimmed, without_commas,
};
use crate::tweet::{Stats, Tweet, User};

verus! {

/// Permalink of a post: `/<screen name>/status/<id>`.
pub const STATUS_LINK_PATTERN: &'static str = r"^/(?P<screen_name>\w+)/status/(?P<id>\d+)";

/// Link of an attached picture, as the front end proxies it.
pub const IMAGE_LINK_PATTERN: &'static str = r"^/pic/\w+/media%2F(?P<url>[\w\-]+\.\w+)$";

/// Where the platform serves the pictures themselves.
pub const MEDIA_URL_PREFIX: &'static str = "https://pbs.twimg.com/media/";

/// One engagement counter.
#[derive(Clone, Copy, Debug, PartialEq, Eq)]
pub enum StatKind {
    Comment,
    Retweet,
    Quote,
    Heart,
}

/// One counter box of a post: which icons it shows, and its first text.
#[derive(Debug)]
pub struct StatBox {
    pub comment: bool,
    pub retweet: bool,
    pub quote: bool,
    pub heart: bool,
    pub text: Option<String>,
}

/// A counter box as plain values.
pub struct StatBoxView {
    pub comment: bool,
    pub retweet: bool,
    pub quote: bool,
    pub heart: bool,
    pub text: Option<Seq<char>>,
}

impl View for StatBox {
    type V = StatBoxView;

    open spec fn view(&self) -> StatBoxView {
        StatBoxView {
            comment: self.comment,
            retweet: self.retweet,
            quote: self.quote,
            heart: self.heart,
            text: opt_view(self.text),
        }
    }
}

/// What a post's markup holds, as plain values.
pub struct RawView {
    pub full_name: Option<Seq<char>>,
    pub screen_name: Option<Seq<char>>,
    pub id_str: Option<Seq<char>>,
    pub body: Option<Seq<char>>,
    pub body_hrefs: Seq<Seq<char>>,
    pub media_files: Seq<Seq<char>>,
    pub created: Option<(Seq<char>, int)>,
    pub retweet: bool,
    pub reply: bool,
    pub quote: bool,
    pub pinned: bool,
    pub stat_boxes: Seq<StatBoxView>,
}

pub open spec fn box_views(v: Seq<StatBox>) -> Seq<StatBoxView> {
    v.map_values(|b: StatBox| b@)
}

impl View for RawTweet {
    type V = RawView;

    open spec fn view(&self) -> RawView {
        RawView {
            full_name: opt_view(self.full_name),
            screen_name: opt_view(self.screen_name),
            id_str: opt_view(self.id_str),
            body: opt_view(self.body),
            body_hrefs: views(self.body_hrefs@),
            media_files: views(self.media_files@),
            created: match self.created {
                Some(c) => Some((c.0@, c.1 as int)),
                None => None,
            },
            retweet: self.retweet,
            reply: self.reply,
            quote: self.quote,
            pinned: self.pinned,
            stat_boxes: box_views(self.stat_boxes@),
        }
    }
}

/// What a post's markup holds, read but not yet interpreted.
///
/// Each `Option` is `None` where the element or attribute is absent.
#[derive(Debug)]
pub struct RawTweet {
    /// `title` of the author's display-name link.
    pub full_name: Option<String>,
    /// Handle that the post's permalink names.
    pub screen_name: Option<String>,
    /// Id that the post's permalink names, as written there.
    pub id_str: Option<String>,
    /// All text of the post's body.
    pub body: Option<String>,
    /// `href` of each link in the body, in document order.
    pub body_hrefs: Vec<String>,
    /// File name of each attached picture, in document order.
    pub media_files: Vec<String>,
    /// The timestamp, as RFC 2822 text and Unix seconds; `None` where it is
    /// absent or unreadable.
    pub created: Option<(String, i64)>,
    pub retweet: bool,
    pub reply: bool,
    pub quote: bool,
    pub pinned: bool,
    /// The counter boxes, in document order.
    pub stat_boxes: Vec<StatBox>,
}

pub open spec fn views(v: Seq<String>) -> Seq<Seq<char>> {
    v.map_values(|s: String| s@)
}

pub open spec fn opt_view(o: Option<String>) -> Option<Seq<char>> {
    match o {
        Some(s) => Some(s@),
        None => None,
    }
}

/// Value of a counter's text: thousands separators dropped, then read as a
/// `u64`; 0 where the text is missing or unreadable.
pub open spec fn counter_value(text: Option<Seq<char>>) -> nat {
    match text {
        None => 0,
        Some(t) => match decimal_of(without_commas(trim_of(t))) {
            Some(v) => if v <= u64::MAX { v } else { 0 },
            None => 0,
        },
    }
}

pub open spec fn shows(b: StatBoxView, k: StatKind) -> bool {
    match k {
        StatKind::Comment => b.comment,
        StatKind::Retweet => b.retweet,
        StatKind::Quote => b.quote,
        StatKind::Heart => b.heart,
    }
}

/// Value of counter `k`: that of the first box showing its icon, else 0.
pub open spec fn stat_value(boxes: Seq<StatBoxView>, k: StatKind) -> nat
    decreases boxes.len(),
{
    if boxes.len() == 0 {
        0
    } else if shows(boxes[0], k) {
        counter_value(boxes[0].text)
    } else {
        stat_value(boxes.drop_first(), k)
    }
}

pub open spec fn site_relative(s: Seq<char>) -> bool {
    s.len() > 0 && s[0] == '/'
}

/// The links of `hrefs` that leave the site, in order.
pub open spec fn outbound(hrefs: Seq<Seq<char>>) -> Seq<Seq<char>>
    decreases hrefs.len(),
{
    if hrefs.len() == 0 {
        hrefs
    } else if site_relative(hrefs.last()) {
        outbound(hrefs.drop_last())
    } else {
        outbound(hrefs.drop_last()).push(hrefs.last())
    }
}

/// The media file that each picture link names, for the links that name one.
pub open spec fn media_files_of(hrefs: Seq<Seq<char>>) -> Seq<Seq<char>>
    decreases hrefs.len(),
{
    if hrefs.len() == 0 {
        hrefs
    } else {
        let rest = media_files_of(hrefs.drop_last());
        match named_capture_of(IMAGE_LINK_PATTERN@, hrefs.last(), "url"@) {
            Some(u) => rest.push(u),
            None => rest,
        }
    }
}

/// Where the platform serves each media file.
pub open spec fn media_urls(files: Seq<Seq<char>>) -> Seq<Seq<char>> {
    files.map_values(|f: Seq<char>| MEDIA_URL_PREFIX@ + f)
}

/// Handle and id that a permalink names.
pub open spec fn status_parts_of(href: Seq<char>) -> (Option<Seq<char>>, Option<Seq<char>>) {
    (
        named_capture_of(STATUS_LINK_PATTERN@, href, "screen_name"@),
        named_capture_of(STATUS_LINK_PATTERN@, href, "id"@),
    )
}

pub open spec fn id_fits(id: Seq<char>) -> bool {
    decimal_of(id) is Some && decimal_of(id)->0 <= u128::MAX
}

/// The message of the first mandatory field that is missing or unreadable,
/// in the order author name, handle, id, body, timestamp.
pub open spec fn missing_field(raw: RawView) -> Option<Seq<char>> {
    if raw.full_name is None {
        Some("missing full_name"@)
    } else if raw.screen_name is None {
        Some("missing screen_name"@)
    } else if raw.id_str is None {
        Some("missing id"@)
    } else if !id_fits(raw.id_str->0) {
        Some("invalid id \""@ + raw.id_str->0 + "\""@)
    } else if raw.body is None {
        Some("missing body"@)
    } else if raw.created is None {
        Some("missing time"@)
    } else {
        None
    }
}

/// `t` is the post that `raw` describes, all of whose mandatory fields are there.
pub open spec fn describes(raw: RawView, t: Tweet) -> bool {
    &&& t.user.full_name@ == raw.full_name->0
    &&& t.user.screen_name@ == raw.screen_name->0
    &&& t.id as nat == decimal_of(raw.id_str->0)->0
    &&& t.id_str@ == decimal_text(t.id as nat)
    &&& t.full_text@ == raw.body->0
    &&& views(t.links@) == outbound(raw.body_hrefs)
    &&& views(t.images@) == media_urls(raw.media_files)
    &&& t.created_at@ == (raw.created->0).0
    &&& t.created_at_ts as int == (raw.created->0).1
    &&& t.video is None
    &&& t.retweet == raw.retweet
    &&& t.reply == raw.reply
    &&& t.quote == raw.quote
    &&& t.pinned == raw.pinned
    &&& t.stats.comment as nat == stat_value(raw.stat_boxes, StatKind::Comment)
    &&& t.stats.retweet as nat == stat_value(raw.stat_boxes, StatKind::Retweet)
    &&& t.stats.quote as nat == stat_value(raw.stat_boxes, StatKind::Quote)
    &&& t.stats.heart as nat == stat_value(raw.stat_boxes, StatKind::Heart)
}

/// Reads an engagement counter: thousands separators dropped, then read as a
/// `u64`; 0 where the text is unreadable.
pub fn parse_counter(text: &str) -> (r: u64)
    ensures
        r as nat == counter_value(Some(text@)),
{
    let t = trimmed(text);
    let digits = strip_commas(&chars_of(t.as_str()));
    match parse_u128(&digits) {
        Some(v) => if v <= u64::MAX as u128 { v as u64 } else { 0 },
        None => 0,
    }
}

/// Value of counter `k` over the counter boxes of a post.
pub fn stat_of(boxes: &Vec<StatBox>, k: StatKind) -> (r: u64)
    ensures
        r as nat == stat_value(box_views(boxes@), k),
{
    let mut i: usize = 0;
    assert(box_views(boxes@).subrange(0, boxes.len() as int) == box_views(boxes@));
    while i < boxes.len()
        invariant
            i <= boxes.len(),
            stat_value(box_views(boxes@), k) == stat_value(
                box_views(boxes@).subrange(i as int, boxes.len() as int),
                k,
            ),
        decreases boxes.len() - i,
    {
        let b = &boxes[i];
        let ghost rest = box_views(boxes@).subrange(i as int, boxes.len() as int);
        assert(rest[0] == b@);
        let hit = match k {
            StatKind::Comment => b.comment,
            StatKind::Retweet => b.retweet,
            StatKind::Quote => b.quote,
            StatKind::Heart => b.heart,
        };
        if hit {
            return match &b.text {
                Some(t) => parse_counter(t.as_str()),
                None => 0,
            };
        }
        assert(rest.drop_first() == box_views(boxes@).subrange(i + 1, boxes.len() as int));
        i = i + 1;
    }
    0
}

/// The links of `hrefs` that leave the site: those not starting with `/`.
pub fn outbound_links(hrefs: &Vec<String>) -> (r: Vec<String>)
    ensures
        views(r@) == outbound(views(hrefs@)),
{
    let mut r: Vec<String> = Vec::new();
    let mut i: usize = 0;
    while i < hrefs.len()
        invariant
            i <= hrefs.len(),
            views(r@) == outbound(views(hrefs@).take(i as int)),
        decreases hrefs.len() - i,
    {
        assert(views(hrefs@).take(i + 1).drop_last() == views(hrefs@).take(i as int));
        let h = &hrefs[i];
        let cs = chars_of(h.as_str());
        if !(cs.len() > 0 && cs[0] == '/') {
            r.push(h.clone());
            assert(views(r@) == views(r@.drop_last()).push(h@));
        }
        i = i + 1;
    }
    assert(views(hrefs@).take(i as int) == views(hrefs@));
    r
}

/// The media file that each picture link names, for the links that name one.
pub fn media_files(hrefs: &Vec<String>) -> (r: Vec<String>)
    ensures
        views(r@) == media_files_of(views(hrefs@)),
{
    let mut r: Vec<String> = Vec::new();
    let mut i: usize = 0;
    while i < hrefs.len()
        invariant
            i <= hrefs.len(),
            views(r@) == media_files_of(views(hrefs@).take(i as int)),
        decreases hrefs.len() - i,
    {
        assert(views(hrefs@).take(i + 1).drop_last() == views(hrefs@).take(i as int));
        match named_capture(IMAGE_LINK_PATTERN, hrefs[i].as_str(), "url") {
            Some(u) => {
                let ghost uv = u@;
                r.push(u);
                assert(views(r@) == views(r@.drop_last()).push(uv));
            },
            None => {},
        }
        i = i + 1;
    }
    assert(views(hrefs@).take(i as int) == views(hrefs@));
    r
}

/// Handle and id that the permalink `href` names.
pub fn status_parts(href: &str) -> (r: (Option<String>, Option<String>))
    ensures
        opt_view(r.0) == status_parts_of(href@).0,
        opt_view(r.1) == status_parts_of(href@).1,
{
    (
        named_capture(STATUS_LINK_PATTERN, href, "screen_name"),
        named_capture(STATUS_LINK_PATTERN, href, "id"),
    )
}

/// The URL where the platform serves each media file.
pub fn media_links(files: &Vec<String>) -> (r: Vec<String>)
    ensures
        views(r@) == media_urls(views(files@)),
{
    let mut r: Vec<String> = Vec::new();
    let mut i: usize = 0;
    while i < files.len()
        invariant
            i <= files.len(),
            views(r@) == media_urls(views(files@).take(i as int)),
        decreases files.len() - i,
    {
        let url = MEDIA_URL_PREFIX.to_string().concat(files[i].as_str());
        let ghost before = r@;
        r.push(url);
        proof {
            let prefix = views(files@).take(i as int);
            assert(views(files@).take(i + 1) =~= prefix.push(files@[i as int]@));
            assert(media_urls(prefix.push(files@[i as int]@)) =~= media_urls(prefix).push(
                MEDIA_URL_PREFIX@ + files@[i as int]@));
            assert(views(r@) =~= views(before).push(url@));
        }
        i = i + 1;
    }
    assert(views(files@).take(i as int) == views(files@));
    r
}

fn parse_error(msg: &str) -> (e: NitterError)
    ensures
        e is Parse && e->Parse_0@ == msg@,
{
    NitterError::Parse(msg.to_string())
}

/// Builds a post from what its markup holds.
///
/// Fails with `NitterError::Parse` naming the first mandatory field that is
/// missing or unreadable; links, pictures, flags and counters never fail.
pub fn tweet_from_raw(raw: RawTweet) -> (r: Result<Tweet, NitterError>)
    ensures
        r is Err <==> missing_field(raw@) is Some,
        r is Err ==> r->Err_0 is Parse && r->Err_0->Parse_0@ == missing_field(raw@)->0,
        r is Ok ==> describes(raw@, r->Ok_0),
{
    let full_name = match raw.full_name {
        Some(n) => n,
        None => return Err(parse_error("missing full_name")),
    };
    let screen_name = match raw.screen_name {
        Some(s) => s,
        None => return Err(parse_error("missing screen_name")),
    };
    let id_text = match raw.id_str {
        Some(s) => s,
        None => return Err(parse_error("missing id")),
    };
    let id = match parse_u128(&chars_of(id_text.as_str())) {
        Some(v) => v,
        None => {
            let msg = "invalid id \"".to_string().concat(id_text.as_str()).concat("\"");
            return Err(NitterError::Parse(msg));
        },
    };
    let id_str = decimal_string(id);
    let full_text = match raw.body {
        Some(b) => b,
        None => return Err(parse_error("missing body")),
    };
    let (created_at, created_at_ts) = match raw.created {
        Some(c) => c,
        None => return Err(parse_error("missing time")),
    };
    let links = outbound_links(&raw.body_hrefs);
    let images = media_links(&raw.media_files);
    let stats = Stats {
        comment: stat_of(&raw.stat_boxes, StatKind::Comment),
        retweet: stat_of(&raw.stat_boxes, StatKind::Retweet),
        quote: stat_of(&raw.stat_boxes, StatKind::Quote),
        heart: stat_of(&raw.stat_boxes, StatKind::Heart),
    };
    Ok(Tweet {
        id,
        id_str,
        created_at,
        created_at_ts,
        user: User { full_name, screen_name },
        full_text,
        images,
        video: None,
        links,
        retweet: raw.retweet,
        reply: raw.reply,
        quote: raw.quote,
        pinned: raw.pinned,
        stats,
    })
}

} // verus!
