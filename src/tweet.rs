use vstd::prelude::*;

verus! {

/// One post of a timeline.
#[derive(Debug)]
pub struct Tweet {
    pub id: u128,
    /// Decimal form of `id`.
    pub id_str: String,
    /// Timestamp in RFC 2822 form.
    pub created_at: String,
    /// Timestamp in seconds since the Unix epoch, UTC.
    pub created_at_ts: i64,
    pub user: User,
    pub full_text: String,
    /// Absolute media URLs.
    pub images: Vec<String>,
    pub video: Option<String>,
    /// Outbound links of the body; site-relative links are left out.
    pub links: Vec<String>,
    pub retweet: bool,
    pub reply: bool,
    pub quote: bool,
    pub pinned: bool,
    pub stats: Stats,
}

/// Author of a post.
#[derive(Debug)]
pub struct User {
    pub full_name: String,
    pub screen_name: String,
}

/// Engagement counters of a post; 0 where a counter was missing or unreadable.
#[derive(Debug)]
pub struct Stats {
    pub comment: u64,
    pub retweet: u64,
    pub quote: u64,
    pub heart: u64,
}

} // verus!
