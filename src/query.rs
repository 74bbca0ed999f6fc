use vstd::prelude::*;

use crate::text::string_of;
use vstd::string::StringSliceAdditionalSpecFns;
use vstd::utf8::encode_utf8;

verus! {

/// What to scrape.
#[derive(Debug)]
pub enum NitterQuery {
    /// Posts matching a free-text search.
    Search { query: String },
    /// An account's timeline.
    UserTimeline { username: String },
    /// An account's timeline, replies included.
    UserTimelineWithReplies { username: String },
    /// An account's posts with media.
    UserMedia { username: String },
    /// An account's posts matching a free-text search.
    UserSearch { username: String, query: String },
}

pub open spec fn is_ascii_alphanumeric(b: u8) -> bool {
    (48 <= b <= 57) || (65 <= b <= 90) || (97 <= b <= 122)
}

/// Upper-case hexadecimal digit of a value below 16.
pub open spec fn hex_digit(v: u8) -> char {
    if v < 10 {
        (v + 48) as char
    } else {
        (v + 55) as char
    }
}

/// How one byte is written in a percent-encoded string.
pub open spec fn encode_byte(b: u8) -> Seq<char> {
    if is_ascii_alphanumeric(b) {
        seq![b as char]
    } else {
        seq!['%', hex_digit(b / 16), hex_digit(b % 16)]
    }
}

/// `bytes` percent-encoded: ASCII letters and digits kept, every other byte
/// written as `%` and two upper-case hexadecimal digits.
pub open spec fn percent_encoded(bytes: Seq<u8>) -> Seq<char>
    decreases bytes.len(),
{
    if bytes.len() == 0 {
        Seq::empty()
    } else {
        percent_encoded(bytes.drop_last()) + encode_byte(bytes.last())
    }
}

fn hex_digit_exec(v: u8) -> (c: char)
    requires
        v < 16,
    ensures
        c == hex_digit(v),
{
    if v < 10 {
        (v + 48) as char
    } else {
        (v + 55) as char
    }
}

/// Percent-encodes the UTF-8 bytes of `s`.
pub fn percent_encode(s: &str) -> (r: String)
    ensures
        r@ == percent_encoded(encode_utf8(s@)),
{
    let bytes = s.as_bytes();
    let mut out: Vec<char> = Vec::new();
    let mut i: usize = 0;
    while i < bytes.len()
        invariant
            i <= bytes@.len(),
            bytes@ == s.spec_bytes(),
            out@ == percent_encoded(bytes@.take(i as int)),
        decreases bytes.len() - i,
    {
        let b = bytes[i];
        assert(bytes@.take(i + 1).drop_last() == bytes@.take(i as int));
        if (48 <= b && b <= 57) || (65 <= b && b <= 90) || (97 <= b && b <= 122) {
            out.push(b as char);
        } else {
            out.push('%');
            out.push(hex_digit_exec(b / 16));
            out.push(hex_digit_exec(b % 16));
        }
        assert(out@ == percent_encoded(bytes@.take(i as int)) + encode_byte(b));
        i = i + 1;
    }
    assert(bytes@.take(i as int) == bytes@);
    string_of(&out)
}

/// The query string of a search for `text`.
pub open spec fn search_query(text: Seq<char>) -> Seq<char> {
    "f=tweets&q="@ + percent_encoded(encode_utf8(text))
}

/// Path and initial query string of `q`.
pub open spec fn encoded(q: NitterQuery) -> (Seq<char>, Seq<char>) {
    match q {
        NitterQuery::Search { query } => ("/search"@, search_query(query@)),
        NitterQuery::UserTimeline { username } => ("/"@ + username@, Seq::empty()),
        NitterQuery::UserTimelineWithReplies { username } => (
            "/"@ + username@ + "/with_replies"@,
            Seq::empty(),
        ),
        NitterQuery::UserMedia { username } => ("/"@ + username@ + "/media"@, Seq::empty()),
        NitterQuery::UserSearch { username, query } => (
            "/"@ + username@ + "/search"@,
            search_query(query@),
        ),
    }
}

impl NitterQuery {
    /// The path under the instance, and the query string of the first page.
    pub fn encode(&self) -> (r: (String, String))
        ensures
            r.0@ == encoded(*self).0,
            r.1@ == encoded(*self).1,
    {
        match self {
            NitterQuery::Search { query } => (
                "/search".to_string(),
                "f=tweets&q=".to_string().concat(percent_encode(query.as_str()).as_str()),
            ),
            NitterQuery::UserTimeline { username } => (
                "/".to_string().concat(username.as_str()),
                String::new(),
            ),
            NitterQuery::UserTimelineWithReplies { username } => (
                "/".to_string().concat(username.as_str()).concat("/with_replies"),
                String::new(),
            ),
            NitterQuery::UserMedia { username } => (
                "/".to_string().concat(username.as_str()).concat("/media"),
                String::new(),
            ),
            NitterQuery::UserSearch { username, query } => (
                "/".to_string().concat(username.as_str()).concat("/search"),
                "f=tweets&q=".to_string().concat(percent_encode(query.as_str()).as_str()),
            ),
        }
    }
}

} // verus!
