use vstd::prelude::*;

use crate::error::NitterError;
use crate::text::{decimal_string, decimal_text};

verus! {

/// Seconds to wait after the first rate-limited response.
pub const INITIAL_BACKOFF_SECS: u64 = 2;

/// The longest wait between two attempts, in seconds.
pub const MAX_BACKOFF_SECS: u64 = 300;

/// How many requests one page may take.
pub const MAX_ATTEMPTS: u32 = 10;

/// HTTP status of a rate-limited response.
pub const STATUS_TOO_MANY_REQUESTS: u16 = 429;

/// HTTP status of a missing resource.
pub const STATUS_NOT_FOUND: u16 = 404;

/// What came back from one request.
#[derive(Debug)]
pub enum FetchEvent {
    /// The server answered with this HTTP status.
    Status(u16),
    /// No answer: connection, TLS or timeout failure, with its cause.
    Transport(String),
}

/// What to do after one request.
#[derive(Debug)]
pub enum FetchAction {
    /// The response is the page: read its body.
    Accept,
    /// Wait this many seconds, then send the request again.
    Retry(u64),
    /// Give up on the page with this error.
    Fail(NitterError),
}

/// Seconds to wait after the rate-limited response that follows `retries`
/// earlier ones: 2, doubling each time, at most 300.
pub open spec fn backoff(retries: nat) -> nat {
    let d = INITIAL_BACKOFF_SECS as nat * vstd::arithmetic::power2::pow2(retries);
    if d < MAX_BACKOFF_SECS { d } else { MAX_BACKOFF_SECS as nat }
}

/// Message of the error for an unexpected HTTP status.
pub open spec fn status_message(status: u16) -> Seq<char> {
    "unexpected HTTP status "@ + decimal_text(status as nat)
}

/// Wait before the retry that follows `retries` earlier rate-limited responses.
pub fn backoff_secs(retries: u32) -> (r: u64)
    ensures
        r as nat == backoff(retries as nat),
{
    let mut d: u64 = INITIAL_BACKOFF_SECS;
    let mut k: u32 = 0;
    proof {
        vstd::arithmetic::power2::lemma_pow2(0);
        vstd::arithmetic::power::lemma_pow0(2);
    }
    while k < retries && d < MAX_BACKOFF_SECS
        invariant
            k <= retries,
            d as nat == INITIAL_BACKOFF_SECS as nat * vstd::arithmetic::power2::pow2(k as nat),
        decreases retries - k,
    {
        proof {
            vstd::arithmetic::power2::lemma_pow2_unfold((k + 1) as nat);
        }
        d = d * 2;
        k = k + 1;
    }
    if d < MAX_BACKOFF_SECS {
        d
    } else {
        proof {
            if k < retries {
                vstd::arithmetic::power2::lemma_pow2_strictly_increases(k as nat, retries as nat);
            }
        }
        MAX_BACKOFF_SECS
    }
}

/// The error for an unexpected HTTP status.
fn status_error(status: u16) -> (e: NitterError)
    ensures
        e is Network && e->Network_0@ == status_message(status),
{
    let digits = decimal_string(status as u128);
    NitterError::Network("unexpected HTTP status ".to_string().concat(digits.as_str()))
}

/// Decides what follows one request for a page, after `retries` earlier
/// rate-limited responses to it.
///
/// A success status is the page. 404 is the terminal `NotFound`. 429 is
/// retried after `backoff(retries)` seconds while fewer than
/// `MAX_ATTEMPTS` requests were made; the last one fails with a network
/// error. Any other status, and any transport failure, fails at once.
pub fn on_fetch_event(event: FetchEvent, retries: u32) -> (r: FetchAction)
    requires
        retries < MAX_ATTEMPTS,
    ensures
        event is Transport ==> r is Fail && r->Fail_0 is Network
            && r->Fail_0->Network_0 == event->Transport_0,
        event is Status && 200 <= event->Status_0 < 300 ==> r is Accept,
        event is Status && event->Status_0 == STATUS_NOT_FOUND ==> r is Fail
            && r->Fail_0 is NotFound,
        event is Status && event->Status_0 == STATUS_TOO_MANY_REQUESTS && retries + 1
            < MAX_ATTEMPTS ==> r is Retry && r->Retry_0 as nat == backoff(retries as nat),
        event is Status && event->Status_0 == STATUS_TOO_MANY_REQUESTS && retries + 1
            == MAX_ATTEMPTS ==> r is Fail && r->Fail_0 is Network
            && r->Fail_0->Network_0@ == status_message(STATUS_TOO_MANY_REQUESTS),
        event is Status && !(200 <= event->Status_0 < 300) && event->Status_0 != STATUS_NOT_FOUND
            && event->Status_0 != STATUS_TOO_MANY_REQUESTS ==> r is Fail && r->Fail_0 is Network
            && r->Fail_0->Network_0@ == status_message(event->Status_0),
{
    match event {
        FetchEvent::Transport(cause) => FetchAction::Fail(NitterError::Network(cause)),
        FetchEvent::Status(status) => {
            if 200 <= status && status < 300 {
                FetchAction::Accept
            } else if status == STATUS_NOT_FOUND {
                FetchAction::Fail(NitterError::NotFound)
            } else if status == STATUS_TOO_MANY_REQUESTS && retries + 1 < MAX_ATTEMPTS {
                FetchAction::Retry(backoff_secs(retries))
            } else {
                FetchAction::Fail(status_error(status))
            }
        },
    }
}

} // verus!
