mod cursor;
mod dom;
mod error;
mod extract;
mod fetch;
mod parse;
mod pattern;
mod query;
mod stream;
mod text;
mod timestamp;
mod tweet;

pub use cursor::NitterCursor;
pub use error::{NitterError, EXIT_ACCOUNT_STATE, EXIT_FAILURE};
pub use extract::{
    media_files, media_links, outbound_links, parse_counter, stat_of, status_parts,
    tweet_from_raw, RawTweet, StatBox,
    StatKind, IMAGE_LINK_PATTERN, MEDIA_URL_PREFIX, STATUS_LINK_PATTERN,
};
pub use fetch::{
    backoff_secs, on_fetch_event, FetchAction, FetchEvent, INITIAL_BACKOFF_SECS, MAX_ATTEMPTS,
    MAX_BACKOFF_SECS,
};
pub use parse::{
    account_state, cursor_from_link, icon_selector, parse_nitter_html, parse_nitter_single,
    parse_page, parse_tweet_time, TIME_FORMAT,
};
pub use query::{percent_encode, NitterQuery};
pub use stream::{NitterScraper, ScrapeConfig, StreamStatus, StreamStep};
pub use text::{contains, parse_u128, strip_commas};
pub use timestamp::CivilTime;
pub use tweet::{Stats, Tweet, User};
