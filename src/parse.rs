use vstd::prelude::*;

use crate::cursor::NitterCursor;
use crate::dom::{
    address, all_text, attr, attr_of, child, count, count_of, first_text, first_text_of,
    load_page, opt_chars, Page, Step, all_text_of,
};
use crate::error::NitterError;
use crate::extract::{
    box_views, describes, media_files, media_files_of, missing_field, status_parts,
    status_parts_of, tweet_from_raw, views, RawTweet, RawView, StatBox, StatBoxView, StatKind,
};
use crate::text::{chars_of, contains, occurs_in};
use crate::timestamp::{parse_timestamp, timestamp_of};
use crate::tweet::Tweet;

verus! {

/// How the front end writes a post's timestamp in its date link's title.
pub const TIME_FORMAT: &'static str =
    "[month repr:short] [day padding:none], [year] · [hour repr:12 padding:none]:[minute] [period] UTC";

/// Text of the error panel of a suspended account.
pub const SUSPENDED_TEXT: &'static str = "has been suspended";

/// Text of the error panel of an account that does not exist.
pub const NOT_FOUND_TEXT: &'static str = "not found";

/// No selector at all: a page loaded with it keeps every subtree.
pub const KEEP_ALL: &'static str = "";

/// Content of an embedded quote, but its permalink.
pub const QUOTE_CONTENT_CSS: &'static str = ".quote > *:not(.quote-link)";

/// A post of a timeline, placeholders left out.
pub const ITEM_CSS: &'static str =
    ".timeline-item:not(.show-more):not(.unavailable):not(.threadunavailable)";

/// The main post of a permalink page.
pub const MAIN_CSS: &'static str = "div.main-tweet > .timeline-item";

/// Marker of a protected account.
pub const PROTECTED_CSS: &'static str = "div.timeline-protected";

/// Error panel of a page.
pub const PANEL_CSS: &'static str = "div.error-panel";

/// The "load more" link.
pub const MORE_CSS: &'static str = ".show-more:not(.timeline-item) a";

pub const FULL_NAME_CSS: &'static str = "a.fullname";

pub const TWEET_LINK_CSS: &'static str = ".tweet-date > a";

pub const BODY_CSS: &'static str = ".tweet-content";

pub const LINK_CSS: &'static str = "a";

pub const IMAGES_CSS: &'static str = ".attachment.image a.still-image";

pub const DATE_CSS: &'static str = "span.tweet-date a";

pub const RETWEET_CSS: &'static str = ".retweet-header";

pub const PINNED_CSS: &'static str = ".pinned";

pub const REPLY_CSS: &'static str = ".replying-to";

pub const QUOTE_CSS: &'static str = ".quote";

pub const STAT_BOX_CSS: &'static str = ".tweet-stat > .icon-container";

pub const ICON_COMMENT_CSS: &'static str = ".icon-comment";

pub const ICON_RETWEET_CSS: &'static str = ".icon-retweet";

pub const ICON_QUOTE_CSS: &'static str = ".icon-quote";

pub const ICON_HEART_CSS: &'static str = ".icon-heart";

/// The icon selector of counter `k`.
pub open spec fn icon_of(k: StatKind) -> Seq<char> {
    match k {
        StatKind::Comment => ICON_COMMENT_CSS@,
        StatKind::Retweet => ICON_RETWEET_CSS@,
        StatKind::Quote => ICON_QUOTE_CSS@,
        StatKind::Heart => ICON_HEART_CSS@,
    }
}

/// The icon selector of counter `k`.
pub fn icon_selector(k: StatKind) -> (r: &'static str)
    ensures
        r@ == icon_of(k),
{
    match k {
        StatKind::Comment => ICON_COMMENT_CSS,
        StatKind::Retweet => ICON_RETWEET_CSS,
        StatKind::Quote => ICON_QUOTE_CSS,
        StatKind::Heart => ICON_HEART_CSS,
    }
}

type Address = Seq<(Seq<char>, nat)>;

/// Some element under `at` matches `css`.
pub open spec fn has_of(h: Seq<char>, s: Seq<char>, at: Address, css: Seq<char>) -> bool {
    count_of(h, s, at, css) is Some && count_of(h, s, at, css)->0 > 0
}

pub open spec fn count_or_zero(h: Seq<char>, s: Seq<char>, at: Address, css: Seq<char>) -> nat {
    match count_of(h, s, at, css) {
        Some(n) => n,
        None => 0,
    }
}

/// Attribute `name` of the first element under `at` that matches `css`.
pub open spec fn first_attr_of(
    h: Seq<char>,
    s: Seq<char>,
    at: Address,
    css: Seq<char>,
    name: Seq<char>,
) -> Option<Seq<char>> {
    if has_of(h, s, at, css) {
        attr_of(h, s, at.push((css, 0)), name)
    } else {
        None
    }
}

/// Attribute `name` of the first `n` elements under `at` that match `css`,
/// for those that have it, in order.
pub open spec fn present_attrs_of(
    h: Seq<char>,
    s: Seq<char>,
    at: Address,
    css: Seq<char>,
    name: Seq<char>,
    n: nat,
) -> Seq<Seq<char>>
    decreases n,
{
    if n == 0 {
        Seq::empty()
    } else {
        let rest = present_attrs_of(h, s, at, css, name, (n - 1) as nat);
        match attr_of(h, s, at.push((css, (n - 1) as nat)), name) {
            Some(v) => rest.push(v),
            None => rest,
        }
    }
}

/// Attribute `name` of every element under `at` that matches `css` and has it.
pub open spec fn all_attrs_of(h: Seq<char>, s: Seq<char>, at: Address, css: Seq<char>, name: Seq<char>) -> Seq<
    Seq<char>,
> {
    present_attrs_of(h, s, at, css, name, count_or_zero(h, s, at, css))
}

/// The counter box at `b`: which icons it shows, and its first text.
pub open spec fn box_of(h: Seq<char>, s: Seq<char>, b: Address) -> StatBoxView {
    StatBoxView {
        comment: has_of(h, s, b, icon_of(StatKind::Comment)),
        retweet: has_of(h, s, b, icon_of(StatKind::Retweet)),
        quote: has_of(h, s, b, icon_of(StatKind::Quote)),
        heart: has_of(h, s, b, icon_of(StatKind::Heart)),
        text: first_text_of(h, s, b),
    }
}

/// The counter boxes of the post at `at`, in order.
pub open spec fn boxes_of(h: Seq<char>, s: Seq<char>, at: Address) -> Seq<StatBoxView> {
    Seq::new(
        count_or_zero(h, s, at, STAT_BOX_CSS@),
        |j: int| box_of(h, s, at.push((STAT_BOX_CSS@, j as nat))),
    )
}

/// What the markup of the post at `at` holds.
pub open spec fn reading_of(h: Seq<char>, s: Seq<char>, at: Address) -> RawView {
    let link = first_attr_of(h, s, at, TWEET_LINK_CSS@, "href"@);
    let body_at = at.push((BODY_CSS@, 0));
    RawView {
        full_name: first_attr_of(h, s, at, FULL_NAME_CSS@, "title"@),
        screen_name: match link {
            Some(l) => status_parts_of(l).0,
            None => None,
        },
        id_str: match link {
            Some(l) => status_parts_of(l).1,
            None => None,
        },
        body: if has_of(h, s, at, BODY_CSS@) {
            all_text_of(h, s, body_at)
        } else {
            None
        },
        body_hrefs: if has_of(h, s, at, BODY_CSS@) {
            all_attrs_of(h, s, body_at, LINK_CSS@, "href"@)
        } else {
            Seq::empty()
        },
        media_files: media_files_of(all_attrs_of(h, s, at, IMAGES_CSS@, "href"@)),
        created: match first_attr_of(h, s, at, DATE_CSS@, "title"@) {
            Some(t) => timestamp_of(t, TIME_FORMAT@),
            None => None,
        },
        retweet: has_of(h, s, at, RETWEET_CSS@),
        reply: has_of(h, s, at, REPLY_CSS@),
        quote: has_of(h, s, at, QUOTE_CSS@),
        pinned: has_of(h, s, at, PINNED_CSS@),
        stat_boxes: boxes_of(h, s, at),
    }
}

/// The account state that a page announces, if any: a protected-account
/// marker first, then an error panel whose text tells of a suspension, then
/// one whose text tells that the account was not found.
pub open spec fn announced_state(protected: bool, panel_text: Option<Seq<char>>) -> Option<NitterError> {
    if protected {
        Some(NitterError::ProtectedAccount)
    } else {
        match panel_text {
            Some(t) => if occurs_in(t, SUSPENDED_TEXT@) {
                Some(NitterError::SuspendedAccount)
            } else if occurs_in(t, NOT_FOUND_TEXT@) {
                Some(NitterError::NotFound)
            } else {
                None
            },
            None => None,
        }
    }
}

/// The account state that the page `h` announces: by its protected-account
/// marker and the first text of its first error panel, read before anything
/// is taken out of the page.
pub open spec fn page_state_of(h: Seq<char>) -> Option<NitterError> {
    let s = KEEP_ALL@;
    announced_state(
        has_of(h, s, Seq::empty(), PROTECTED_CSS@),
        if has_of(h, s, Seq::empty(), PANEL_CSS@) {
            first_text_of(h, s, seq![(PANEL_CSS@, 0nat)])
        } else {
            None
        },
    )
}

/// Number of posts on the timeline page `h`.
pub open spec fn item_count(h: Seq<char>) -> nat {
    count_or_zero(h, QUOTE_CONTENT_CSS@, Seq::empty(), ITEM_CSS@)
}

/// What the `i`-th post of the timeline page `h` holds, quotes taken out.
pub open spec fn item_reading(h: Seq<char>, i: nat) -> RawView {
    reading_of(h, QUOTE_CONTENT_CSS@, seq![(ITEM_CSS@, i)])
}

/// The last "load more" link of the page `h`.
pub open spec fn more_link_of(h: Seq<char>) -> Option<Seq<char>> {
    let s = QUOTE_CONTENT_CSS@;
    let n = count_or_zero(h, s, Seq::empty(), MORE_CSS@);
    if n > 0 {
        attr_of(h, s, seq![(MORE_CSS@, (n - 1) as nat)], "href"@)
    } else {
        None
    }
}

/// `c` is the cursor that the link `href` gives.
pub open spec fn cursor_for(c: NitterCursor, href: Option<Seq<char>>) -> bool {
    match href {
        Some(x) => c is More && c->More_0@ == x,
        None => c is End,
    }
}

/// Post `j` is the first of page `h` that lacks a mandatory field.
pub open spec fn first_failing(h: Seq<char>, j: int) -> bool {
    &&& 0 <= j < item_count(h)
    &&& missing_field(item_reading(h, j as nat)) is Some
    &&& forall|i: int| 0 <= i < j ==> missing_field(#[trigger] item_reading(h, i as nat)) is None
}

/// `r` is what parsing the timeline page `h` gives: the page's account state
/// if it announces one; else the error of its first post that lacks a
/// mandatory field; else all its posts in order, and the cursor of its last
/// "load more" link.
pub open spec fn page_parsed(h: Seq<char>, r: Result<(Vec<Tweet>, NitterCursor), NitterError>) -> bool {
    match page_state_of(h) {
        Some(e) => r is Err && r->Err_0 == e,
        None => if exists|j: int| first_failing(h, j) {
            exists|j: int|
                first_failing(h, j) && r is Err && r->Err_0 is Parse && r->Err_0->Parse_0@
                    == missing_field(item_reading(h, j as nat))->0
        } else {
            &&& r is Ok
            &&& (r->Ok_0).0@.len() == item_count(h)
            &&& forall|i: int|
                0 <= i < item_count(h) ==> describes(
                    item_reading(h, i as nat),
                    #[trigger] (r->Ok_0).0@[i],
                )
            &&& cursor_for((r->Ok_0).1, more_link_of(h))
        },
    }
}

/// Classifies a page by its protected-account marker and the first text of
/// its first error panel.
pub fn account_state(protected: bool, panel_text: Option<String>) -> (r: Option<NitterError>)
    ensures
        r == announced_state(protected, opt_chars(panel_text)),
{
    if protected {
        return Some(NitterError::ProtectedAccount);
    }
    match panel_text {
        Some(t) => {
            let cs = chars_of(t.as_str());
            if contains(&cs, &chars_of(SUSPENDED_TEXT)) {
                Some(NitterError::SuspendedAccount)
            } else if contains(&cs, &chars_of(NOT_FOUND_TEXT)) {
                Some(NitterError::NotFound)
            } else {
                None
            }
        },
        None => None,
    }
}

/// The cursor a page leaves: `More` with the last "load more" link, or `End`
/// where there is none.
pub fn cursor_from_link(href: Option<String>) -> (r: NitterCursor)
    ensures
        cursor_for(r, opt_chars(href)),
{
    match href {
        Some(h) => NitterCursor::More(h),
        None => NitterCursor::End,
    }
}

fn has_match(page: &Page, at: &Vec<Step>, css: &str) -> (r: bool)
    ensures
        r == has_of(page.text(), page.strip(), address(at@), css@),
{
    match count(page, at, css) {
        Some(n) => n > 0,
        None => false,
    }
}

fn first_attr(page: &Page, at: &Vec<Step>, css: &str, name: &str) -> (r: Option<String>)
    ensures
        opt_chars(r) == first_attr_of(page.text(), page.strip(), address(at@), css@, name@),
{
    if has_match(page, at, css) {
        attr(page, &child(at, css, 0), name)
    } else {
        None
    }
}

fn present_attrs(page: &Page, at: &Vec<Step>, css: &str, name: &str) -> (r: Vec<String>)
    ensures
        views(r@) == all_attrs_of(page.text(), page.strip(), address(at@), css@, name@),
{
    let n: usize = match count(page, at, css) {
        Some(n) => n,
        None => 0,
    };
    let mut r: Vec<String> = Vec::new();
    let mut i: usize = 0;
    while i < n
        invariant
            i <= n,
            n == count_or_zero(page.text(), page.strip(), address(at@), css@),
            views(r@) == present_attrs_of(page.text(), page.strip(), address(at@), css@, name@, i as nat),
        decreases n - i,
    {
        match attr(page, &child(at, css, i), name) {
            Some(v) => {
                let ghost vv = v@;
                r.push(v);
                assert(views(r@) =~= views(r@.drop_last()).push(vv));
            },
            None => {},
        }
        i = i + 1;
    }
    r
}

fn stat_boxes(page: &Page, at: &Vec<Step>) -> (r: Vec<StatBox>)
    ensures
        box_views(r@) == boxes_of(page.text(), page.strip(), address(at@)),
{
    let n: usize = match count(page, at, STAT_BOX_CSS) {
        Some(n) => n,
        None => 0,
    };
    let ghost h = page.text();
    let ghost s = page.strip();
    let mut r: Vec<StatBox> = Vec::new();
    let mut i: usize = 0;
    while i < n
        invariant
            i <= n,
            n == count_or_zero(h, s, address(at@), STAT_BOX_CSS@),
            h == page.text(),
            s == page.strip(),
            box_views(r@).len() == i,
            forall|j: int| 0 <= j < i ==> #[trigger] box_views(r@)[j] == box_of(h, s, address(at@).push((STAT_BOX_CSS@, j as nat))),
        decreases n - i,
    {
        let b = child(at, STAT_BOX_CSS, i);
        let sb = StatBox {
            comment: has_match(page, &b, icon_selector(StatKind::Comment)),
            retweet: has_match(page, &b, icon_selector(StatKind::Retweet)),
            quote: has_match(page, &b, icon_selector(StatKind::Quote)),
            heart: has_match(page, &b, icon_selector(StatKind::Heart)),
            text: first_text(page, &b),
        };
        let ghost before = r@;
        r.push(sb);
        assert forall|j: int| 0 <= j < i + 1 implies #[trigger] box_views(r@)[j] == box_of(h, s, address(at@).push((STAT_BOX_CSS@, j as nat))) by {
            if j < i {
                assert(box_views(r@)[j] == box_views(before)[j]);
            }
        }
        i = i + 1;
    }
    assert(box_views(r@) =~= boxes_of(h, s, address(at@)));
    r
}

/// Reads a post's timestamp as its date link's title writes it (for instance
/// `Jan 5, 2021 · 3:04 PM UTC`), as UTC: its RFC 2822 text and its seconds
/// since the Unix epoch. `None` where the title does not have that form.
pub fn parse_tweet_time(title: &str) -> (r: Option<(String, i64)>)
    ensures
        r is Some <==> timestamp_of(title@, TIME_FORMAT@) is Some,
        r is Some ==> (r->0).0@ == (timestamp_of(title@, TIME_FORMAT@)->0).0
            && (r->0).1 as int == (timestamp_of(title@, TIME_FORMAT@)->0).1,
{
    parse_timestamp(title, TIME_FORMAT)
}

/// Reads what the markup of the post at `at` holds.
fn raw_tweet(page: &Page, at: &Vec<Step>) -> (r: RawTweet)
    ensures
        r@ == reading_of(page.text(), page.strip(), address(at@)),
{
    let (body, body_hrefs) = if has_match(page, at, BODY_CSS) {
        let b = child(at, BODY_CSS, 0);
        (all_text(page, &b), present_attrs(page, &b, LINK_CSS, "href"))
    } else {
        (None, Vec::new())
    };
    let created = match first_attr(page, at, DATE_CSS, "title") {
        Some(title) => parse_tweet_time(title.as_str()),
        None => None,
    };
    let (screen_name, id_str) = match first_attr(page, at, TWEET_LINK_CSS, "href") {
        Some(href) => status_parts(href.as_str()),
        None => (None, None),
    };
    let r = RawTweet {
        full_name: first_attr(page, at, FULL_NAME_CSS, "title"),
        screen_name,
        id_str,
        body,
        body_hrefs,
        media_files: media_files(&present_attrs(page, at, IMAGES_CSS, "href")),
        created,
        retweet: has_match(page, at, RETWEET_CSS),
        reply: has_match(page, at, REPLY_CSS),
        quote: has_match(page, at, QUOTE_CSS),
        pinned: has_match(page, at, PINNED_CSS),
        stat_boxes: stat_boxes(page, at),
    };
    assert(r@.body_hrefs == reading_of(page.text(), page.strip(), address(at@)).body_hrefs);
    assert(r@ =~= reading_of(page.text(), page.strip(), address(at@)));
    r
}

/// Extracts the post at `at`.
fn parse_tweet(page: &Page, at: &Vec<Step>) -> (r: Result<Tweet, NitterError>)
    ensures
        r is Err <==> missing_field(reading_of(page.text(), page.strip(), address(at@))) is Some,
        r is Err ==> r->Err_0 is Parse && r->Err_0->Parse_0@ == missing_field(
            reading_of(page.text(), page.strip(), address(at@)),
        )->0,
        r is Ok ==> describes(reading_of(page.text(), page.strip(), address(at@)), r->Ok_0),
{
    tweet_from_raw(raw_tweet(page, at))
}

/// Parses one timeline page: its posts in page order and the cursor to the
/// next page.
///
/// The content of every embedded quote but its permalink is taken out first,
/// so that nothing quoted is taken for the enclosing post's. A page that
/// announces a protected, suspended or unknown account yields that state as
/// the error, and no posts are read. Otherwise the first post that lacks a
/// mandatory field fails the page with `NitterError::Parse`.
pub fn parse_page(html: &str) -> (r: Result<(Vec<Tweet>, NitterCursor), NitterError>)
    ensures
        page_parsed(html@, r),
{
    let whole = load_page(html, KEEP_ALL);
    let root: Vec<Step> = Vec::new();
    assert(address(root@) =~= Seq::empty());
    let panel_text = if has_match(&whole, &root, PANEL_CSS) {
        let p = child(&root, PANEL_CSS, 0);
        assert(address(p@) =~= seq![(PANEL_CSS@, 0nat)]);
        first_text(&whole, &p)
    } else {
        None
    };
    let protected = has_match(&whole, &root, PROTECTED_CSS);
    let ghost h = html@;
    let ghost s = KEEP_ALL@;
    assert(opt_chars(panel_text) == if has_of(h, s, Seq::empty(), PANEL_CSS@) {
        first_text_of(h, s, seq![(PANEL_CSS@, 0nat)])
    } else {
        None
    });
    assert(protected == has_of(h, s, Seq::empty(), PROTECTED_CSS@));
    match account_state(protected, panel_text) {
        Some(e) => {
            assert(page_state_of(h) == Some(e));
            return Err(e);
        },
        None => {},
    }
    let page = load_page(html, QUOTE_CONTENT_CSS);
    let n: usize = match count(&page, &root, ITEM_CSS) {
        Some(n) => n,
        None => 0,
    };
    let mut tweets: Vec<Tweet> = Vec::new();
    let mut i: usize = 0;
    while i < n
        invariant
            i <= n,
            n == item_count(h),
            h == html@,
            h == page.text(),
            page.strip() == QUOTE_CONTENT_CSS@,
            page_state_of(h) is None,
            address(root@) == Seq::<(Seq<char>, nat)>::empty(),
            tweets@.len() == i,
            forall|k: int| 0 <= k < i ==> missing_field(#[trigger] item_reading(h, k as nat)) is None,
            forall|k: int| 0 <= k < i ==> describes(item_reading(h, k as nat), #[trigger] tweets@[k]),
        decreases n - i,
    {
        let at = child(&root, ITEM_CSS, i);
        assert(address(at@) =~= seq![(ITEM_CSS@, i as nat)]);
        match parse_tweet(&page, &at) {
            Ok(t) => tweets.push(t),
            Err(e) => {
                assert(item_reading(h, i as nat) == reading_of(page.text(), page.strip(), address(at@)));
                assert(first_failing(h, i as int));
                let ghost j = i as int;
                assert(item_reading(h, j as nat) == item_reading(h, i as nat));
                assert(first_failing(h, j) && e is Parse && e->Parse_0@ == missing_field(item_reading(h, j as nat))->0);
                return Err(e);
            },
        }
        i = i + 1;
    }
    assert(!exists|j: int| first_failing(h, j));
    let m: usize = match count(&page, &root, MORE_CSS) {
        Some(m) => m,
        None => 0,
    };
    let href = if m > 0 {
        let at = child(&root, MORE_CSS, m - 1);
        assert(address(at@) =~= seq![(MORE_CSS@, (m - 1) as nat)]);
        attr(&page, &at, "href")
    } else {
        None
    };
    Ok((tweets, cursor_from_link(href)))
}

/// Parses one timeline page.
pub fn parse_nitter_html(html: String) -> (r: Result<(Vec<Tweet>, NitterCursor), NitterError>)
    ensures
        page_parsed(html@, r),
{
    parse_page(html.as_str())
}

/// Parses a permalink page: its main post, quotes taken out, and `End`, since
/// such a page has no further pages. Fails with `NitterError::Parse` where
/// the page has no main post or the post lacks a mandatory field.
pub fn parse_nitter_single(html: String) -> (r: Result<(Tweet, NitterCursor), NitterError>)
    ensures
        !has_of(html@, QUOTE_CONTENT_CSS@, Seq::empty(), MAIN_CSS@) ==> r is Err && r->Err_0 is Parse
            && r->Err_0->Parse_0@ == "missing main tweet"@,
        has_of(html@, QUOTE_CONTENT_CSS@, Seq::empty(), MAIN_CSS@) ==> {
            let m = reading_of(html@, QUOTE_CONTENT_CSS@, seq![(MAIN_CSS@, 0nat)]);
            &&& r is Err <==> missing_field(m) is Some
            &&& r is Err ==> r->Err_0 is Parse && r->Err_0->Parse_0@ == missing_field(m)->0
            &&& r is Ok ==> describes(m, (r->Ok_0).0) && (r->Ok_0).1 is End
        },
{
    let page = load_page(html.as_str(), QUOTE_CONTENT_CSS);
    let root: Vec<Step> = Vec::new();
    assert(address(root@) =~= Seq::empty());
    if !has_match(&page, &root, MAIN_CSS) {
        return Err(NitterError::Parse("missing main tweet".to_string()));
    }
    let at = child(&root, MAIN_CSS, 0);
    assert(address(at@) =~= seq![(MAIN_CSS@, 0nat)]);
    match parse_tweet(&page, &at) {
        Ok(t) => Ok((t, NitterCursor::End)),
        Err(e) => Err(e),
    }
}

} // verus!
