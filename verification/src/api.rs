//! The request side of the pagination protocol: how a page request is
//! addressed, and what follows from the way one attempt at it ended.

use crate::timestamp::{instant_text, Timestamp};
use vstd::prelude::*;
use vstd::string::*;

verus! {

/// Seconds to wait after a throttled or failing response that names no usable
/// delay of its own.
pub const DEFAULT_RETRY_SECONDS: u64 = 60;

/// Seconds to wait after an attempt that never reached the server.
pub const TRANSPORT_RETRY_SECONDS: u64 = 30;

/// The status of a throttled request.
pub const STATUS_TOO_MANY_REQUESTS: u16 = 429;

/// The address of the document list, without a query.
pub open spec fn base_url() -> Seq<char> {
    "https://readwise.io/api/v3/list/"@
}

/// The address of one page request, given the query values already as text.
///
/// The cursor and the lower bound on the update time are independent: each is
/// named in the query exactly when it is given, the cursor first.
pub open spec fn url_text(cursor: Option<Seq<char>>, updated_after: Option<Seq<char>>) -> Seq<
    char,
> {
    match (cursor, updated_after) {
        (None, None) => base_url(),
        (Some(c), None) => base_url() + "?pageCursor="@ + c,
        (None, Some(t)) => base_url() + "?updatedAfter="@ + t,
        (Some(c), Some(t)) => base_url() + "?pageCursor="@ + c + "&updatedAfter="@ + t,
    }
}

/// The view of an optional string slice.
pub open spec fn opt_str_view(s: Option<&str>) -> Option<Seq<char>> {
    match s {
        Some(text) => Some(text@),
        None => None,
    }
}

/// The text an optional instant is sent as.
pub open spec fn opt_instant_text(t: Option<&Timestamp>) -> Option<Seq<char>> {
    match t {
        Some(ts) => Some(instant_text(ts@.secs, ts@.nanos)),
        None => None,
    }
}

/// Joins the list address with the query values given.
pub fn compose_url(cursor: Option<&str>, updated_after: Option<&str>) -> (out: String)
    ensures
        out@ == url_text(opt_str_view(cursor), opt_str_view(updated_after)),
{
    let mut url = String::from_str("https://readwise.io/api/v3/list/");
    match cursor {
        Some(c) => {
            url.append("?pageCursor=");
            url.append(c);
            match updated_after {
                Some(t) => {
                    url.append("&updatedAfter=");
                    url.append(t);
                },
                None => {},
            }
        },
        None => {
            match updated_after {
                Some(t) => {
                    url.append("?updatedAfter=");
                    url.append(t);
                },
                None => {},
            }
        },
    }
    url
}

/// The address of the request for the page at `cursor`, restricted to
/// documents updated after `updated_after` where that is given.
pub fn build_url(cursor: Option<&str>, updated_after: Option<&Timestamp>) -> (out: String)
    ensures
        out@ == url_text(opt_str_view(cursor), opt_instant_text(updated_after)),
{
    match updated_after {
        Some(ts) => {
            let text = ts.to_seconds_text();
            compose_url(cursor, Some(text.as_str()))
        },
        None => compose_url(cursor, None),
    }
}

/// The value of the `Authorization` header that presents an access token.
pub fn authorization_value(access_token: &str) -> (out: String)
    ensures
        out@ == "Token "@ + access_token@,
{
    let mut value = String::from_str("Token ");
    value.append(access_token);
    value
}

/// The value of one decimal digit.
pub open spec fn digit_value(c: char) -> Option<int> {
    if '0' <= c && c <= '9' {
        Some(c as int - '0' as int)
    } else {
        None
    }
}

/// The number a non-empty run of decimal digits denotes.
pub open spec fn digits_value(s: Seq<char>) -> Option<int>
    decreases s.len(),
{
    if s.len() == 0 {
        None
    } else {
        match digit_value(s.last()) {
            None => None,
            Some(d) => if s.len() == 1 {
                Some(d)
            } else {
                match digits_value(s.drop_last()) {
                    Some(high) => Some(high * 10 + d),
                    None => None,
                }
            },
        }
    }
}

/// A text without the plus sign that may lead it.
pub open spec fn unsigned_part(text: Seq<char>) -> Seq<char> {
    if text.len() > 0 && text[0] == '+' {
        text.skip(1)
    } else {
        text
    }
}

/// The number of seconds a delay header denotes: decimal digits, with an
/// optional plus sign before them and nothing else around them, whose value
/// fits in 64 bits.
pub open spec fn decimal_seconds(text: Seq<char>) -> Option<u64> {
    match digits_value(unsigned_part(text)) {
        Some(v) if v <= u64::MAX => Some(v as u64),
        _ => None,
    }
}

/// A run of digits that denotes a number holds digits only, and each of its
/// non-empty prefixes denotes a number that is no larger.
proof fn lemma_digits_prefix(s: Seq<char>, k: int)
    requires
        digits_value(s) is Some,
        0 < k <= s.len(),
    ensures
        digit_value(s[k - 1]) is Some,
        digits_value(s.take(k)) is Some,
        0 <= digits_value(s.take(k))->0 <= digits_value(s)->0,
    decreases s.len(),
{
    if k == s.len() {
        assert(s.take(k) =~= s);
        if s.len() > 1 {
            lemma_digits_prefix(s.drop_last(), k - 1);
        }
    } else {
        lemma_digits_prefix(s.drop_last(), k);
        assert(s.drop_last().take(k) =~= s.take(k));
    }
}

/// Reads the number of seconds a delay header denotes.
pub fn parse_seconds(text: &str) -> (out: Option<u64>)
    ensures
        out == decimal_seconds(text@),
{
    let n = text.unicode_len();
    if n == 0 {
        return None;
    }
    let start: usize = if text.get_char(0) == '+' {
        1
    } else {
        0
    };
    if start == n {
        return None;
    }
    let ghost digits = unsigned_part(text@);
    assert(digits =~= text@.skip(start as int));
    let mut acc: u64 = 0;
    let mut i: usize = start;
    while i < n
        invariant
            start <= i <= n,
            start < n,
            n == text@.len(),
            digits == unsigned_part(text@),
            digits == text@.skip(start as int),
            i == start ==> acc == 0,
            i > start ==> digits_value(digits.take(i - start)) == Some(acc as int),
        decreases n - i,
    {
        let c = text.get_char(i);
        assert(c == digits[i - start]);
        if c < '0' || c > '9' {
            proof {
                if digits_value(digits) is Some {
                    lemma_digits_prefix(digits, i - start + 1);
                }
            }
            return None;
        }
        let d: u64 = (c as u32 - '0' as u32) as u64;
        proof {
            let longer = digits.take(i - start + 1);
            assert(longer.last() == c);
            assert(longer.drop_last() =~= digits.take(i - start));
            assert(digits_value(longer) == Some(acc * 10 + d));
            if digits_value(digits) is Some {
                lemma_digits_prefix(digits, i - start + 1);
            }
        }
        if acc > (u64::MAX - d) / 10 {
            return None;
        }
        acc = acc * 10 + d;
        i += 1;
    }
    assert(digits.take(n - start) =~= digits);
    Some(acc)
}

/// How one attempt at a request ended.
#[derive(Clone, Debug, PartialEq, Eq)]
pub enum Attempt {
    /// The server answered with a status below 400.
    Answered,
    /// The server answered with a status of 400 or above; `retry_after` is
    /// the value of its `Retry-After` header, where it sent one.
    Refused { status: u16, retry_after: Option<String> },
    /// No answer arrived: the connection, the name lookup or the transfer
    /// failed.
    Unreachable,
}

/// What follows an attempt.
#[derive(Debug, PartialEq, Eq)]
pub enum Verdict {
    /// The answer is the page: decode it.
    Accept,
    /// Send the same request again after `seconds`; `defaulted` tells that the
    /// server named no usable delay and the default stands in.
    Retry { seconds: u64, defaulted: bool },
    /// The request cannot succeed: the run ends with this status.
    Fail { status: u16 },
}

/// Whether a refusal with this status is worth another attempt: throttling,
/// and every failure on the server's side.
pub open spec fn retryable_status(status: u16) -> bool {
    status == STATUS_TOO_MANY_REQUESTS || status >= 500
}

/// The delay a refusal asks for, given the number its header denotes.
pub open spec fn retry_delay(header_value: Option<u64>) -> Verdict {
    match header_value {
        Some(seconds) => Verdict::Retry { seconds, defaulted: false },
        None => Verdict::Retry { seconds: DEFAULT_RETRY_SECONDS, defaulted: true },
    }
}

/// The number an optional delay header denotes.
pub open spec fn header_seconds(retry_after: Option<String>) -> Option<u64> {
    match retry_after {
        Some(text) => decimal_seconds(text@),
        None => None,
    }
}

/// The verdict on each kind of attempt.
pub open spec fn verdict_of(attempt: Attempt) -> Verdict {
    match attempt {
        Attempt::Answered => Verdict::Accept,
        Attempt::Refused { status, retry_after } => if retryable_status(status) {
            retry_delay(header_seconds(retry_after))
        } else {
            Verdict::Fail { status }
        },
        Attempt::Unreachable => Verdict::Retry {
            seconds: TRANSPORT_RETRY_SECONDS,
            defaulted: false,
        },
    }
}

/// Only an answer is accepted, and only a refusal that is neither throttling
/// nor a failure on the server's side ends the run, with the status of that
/// refusal. Every other attempt is retried, however many came before it.
pub proof fn lemma_verdicts(attempt: Attempt)
    ensures
        verdict_of(attempt) is Accept <==> attempt is Answered,
        verdict_of(attempt) is Fail <==> (attempt matches Attempt::Refused { status, .. }
            && !retryable_status(status)),
        verdict_of(attempt) matches Verdict::Fail { status } ==> (
        attempt matches Attempt::Refused { status: refused, .. } && refused == status),
        verdict_of(attempt) is Retry <==> (attempt is Unreachable
            || (attempt matches Attempt::Refused { status, .. } && retryable_status(status))),
{
}

/// Decides what follows an attempt: an answer is accepted; throttling and
/// server failures are retried after the delay the server names, or the
/// default; a failure to reach the server is retried after a fixed delay;
/// every other refusal ends the run.
pub fn judge(attempt: &Attempt) -> (out: Verdict)
    ensures
        out == verdict_of(*attempt),
{
    match attempt {
        Attempt::Answered => Verdict::Accept,
        Attempt::Refused { status, retry_after } => {
            if *status == STATUS_TOO_MANY_REQUESTS || *status >= 500 {
                let named = match retry_after {
                    Some(text) => parse_seconds(text.as_str()),
                    None => None,
                };
                match named {
                    Some(seconds) => Verdict::Retry { seconds, defaulted: false },
                    None => Verdict::Retry { seconds: DEFAULT_RETRY_SECONDS, defaulted: true },
                }
            } else {
                Verdict::Fail { status: *status }
            }
        },
        Attempt::Unreachable => Verdict::Retry {
            seconds: TRANSPORT_RETRY_SECONDS,
            defaulted: false,
        },
    }
}

} // verus!
