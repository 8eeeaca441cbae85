//! The error taxonomy of the client and the classification of failed responses.
use vstd::prelude::*;

verus! {

/// Declares `serde_json::Error`, carried opaquely in [`ClientError::ParseJSON`].
#[verifier::external_type_specification]
#[verifier::external_body]
pub struct ExJsonError(serde_json::Error);

/// Declares `reqwest::Error`, carried opaquely in [`ClientError::Request`].
#[verifier::external_type_specification]
#[verifier::external_body]
pub struct ExRequestError(reqwest::Error);

/// An error object reported by the API inside a response body.
#[derive(Clone, Debug)]
pub enum ApiError {
    /// The regular error object: `{status, message}`.
    Regular { status: u16, message: String },
    /// The player error object: `{status, message, reason}`.
    Player { status: u16, message: String, reason: String },
}

/// What a call of the client can fail with.
#[derive(Debug)]
pub enum ClientError {
    /// The token was refused (HTTP 401).
    Unauthorized,
    /// Too many requests (HTTP 429), with the `Retry-After` hint in seconds
    /// when the server sent a readable one.
    RateLimited(Option<usize>),
    /// An error object reported by the API.
    Api(ApiError),
    /// A successful response whose body did not decode.
    ParseJSON(serde_json::Error),
    /// The request could not be sent or its response not read.
    Request(reqwest::Error),
    /// Any other failing HTTP status.
    StatusCode(u16),
}

/// Whether `status` is in the success class 2xx.
pub open spec fn success_status(status: u16) -> bool {
    200 <= status <= 299
}

/// Whether an error body is read for `status`: only 403 and 404 carry a
/// structured error object reliably.
pub open spec fn reads_error_body(status: u16) -> bool {
    status == 403 || status == 404
}

pub open spec fn is_digit(c: char) -> bool {
    '0' <= c <= '9'
}

pub open spec fn all_digits(s: Seq<char>) -> bool {
    forall|i: int| 0 <= i < s.len() ==> is_digit(#[trigger] s[i])
}

/// The value of a string of decimal digits.
pub open spec fn decimal_value(s: Seq<char>) -> int
    decreases s.len(),
{
    if s.len() == 0 {
        0
    } else {
        decimal_value(s.drop_last()) * 10 + (s.last() as int - '0' as int)
    }
}

/// The digits of an unsigned number, after an optional leading `+`.
pub open spec fn unsigned_digits(s: Seq<char>) -> Seq<char> {
    if s.len() > 0 && s[0] == '+' {
        s.drop_first()
    } else {
        s
    }
}

/// The `usize` that `s` spells in decimal (an optional `+`, then at least one
/// digit, with a value that fits), as `str::parse::<usize>` reads it.
pub open spec fn parsed_usize(s: Seq<char>) -> Option<usize> {
    let d = unsigned_digits(s);
    if d.len() > 0 && all_digits(d) && decimal_value(d) <= usize::MAX {
        Some(decimal_value(d) as usize)
    } else {
        None
    }
}

proof fn lemma_decimal_value_nonneg(s: Seq<char>)
    requires
        forall|i: int| 0 <= i < s.len() ==> is_digit(#[trigger] s[i]),
    ensures
        decimal_value(s) >= 0,
    decreases s.len(),
{
    if s.len() > 0 {
        lemma_decimal_value_nonneg(s.drop_last());
    }
}

/// A string of digits is worth at least as much as any of its prefixes.
proof fn lemma_decimal_value_prefix(s: Seq<char>, k: int)
    requires
        0 <= k <= s.len(),
        forall|i: int| 0 <= i < s.len() ==> is_digit(#[trigger] s[i]),
    ensures
        decimal_value(s.subrange(0, k)) <= decimal_value(s),
    decreases s.len() - k,
{
    if k < s.len() {
        lemma_decimal_value_prefix(s.drop_last(), k);
        assert(s.drop_last().subrange(0, k) =~= s.subrange(0, k));
        lemma_decimal_value_nonneg(s.drop_last());
    } else {
        assert(s.subrange(0, k) =~= s);
    }
}

/// Reads a `Retry-After` value as a number of seconds.
pub fn parse_retry_after(value: &str) -> (r: Option<usize>)
    ensures
        r == parsed_usize(value@),
{
    let n = value.unicode_len();
    let mut i: usize = 0;
    if n > 0 && value.get_char(0) == '+' {
        i = 1;
    }
    let start = i;
    let ghost d = unsigned_digits(value@);
    assert(d =~= value@.subrange(start as int, n as int));
    if i == n {
        return None;
    }
    let mut acc: usize = 0;
    while i < n
        invariant
            n == value@.len(),
            d == value@.subrange(start as int, n as int),
            d == unsigned_digits(value@),
            start <= i <= n,
            forall|j: int| start <= j < i ==> is_digit(#[trigger] value@[j]),
            acc == decimal_value(value@.subrange(start as int, i as int)),
        decreases n - i,
    {
        let c = value.get_char(i);
        let ghost p = value@.subrange(start as int, i + 1);
        assert(p.drop_last() =~= value@.subrange(start as int, i as int));
        if !('0' <= c && c <= '9') {
            assert(!is_digit(d[i - start]));
            return None;
        }
        let digit = (c as u32 - '0' as u32) as usize;
        let next = match acc.checked_mul(10) {
            Some(m) => m.checked_add(digit),
            None => None,
        };
        match next {
            Some(v) => {
                acc = v;
            },
            None => {
                proof {
                    assert(decimal_value(p) == acc * 10 + digit);
                    assert(decimal_value(p) > usize::MAX);
                    if all_digits(d) {
                        assert(p =~= d.subrange(0, i + 1 - start));
                        lemma_decimal_value_nonneg(value@.subrange(start as int, i as int));
                        lemma_decimal_value_prefix(d, i + 1 - start);
                    }
                }
                return None;
            },
        }
        i = i + 1;
    }
    assert(value@.subrange(start as int, i as int) =~= d);
    Some(acc)
}

impl ApiError {
    /// The error object with these fields: a `reason` makes it a player error.
    pub fn from_fields(status: u16, message: String, reason: Option<String>) -> (r: ApiError)
        ensures
            reason is None ==> r == (ApiError::Regular { status, message }),
            reason matches Some(why) ==> r == (ApiError::Player { status, message, reason: why }),
    {
        match reason {
            Some(why) => ApiError::Player { status, message, reason: why },
            None => ApiError::Regular { status, message },
        }
    }
}

impl ClientError {
    /// Whether a response with this status counts as a success, whose body is
    /// handed to the caller as it is.
    pub fn is_success(status: u16) -> (r: bool)
        ensures
            r == success_status(status),
    {
        200 <= status && status <= 299
    }

    /// Whether the body of a failed response with this status is to be read
    /// and decoded as an error object before classifying it.
    pub fn reads_body(status: u16) -> (r: bool)
        ensures
            r == reads_error_body(status),
    {
        status == 403 || status == 404
    }

    /// Classifies a failed response from its status, its `Retry-After`
    /// header and, for 403 and 404, the error object decoded from its body
    /// (`None` when the body did not decode).
    pub fn from_response(status: u16, retry_after: Option<&str>, body: Option<ApiError>) -> (r:
        ClientError)
        ensures
            status == 401 ==> r is Unauthorized,
            status == 429 ==> r == ClientError::RateLimited(
                match retry_after {
                    Some(v) => parsed_usize(v@),
                    None => None,
                },
            ),
            reads_error_body(status) && body is Some ==> r == ClientError::Api(body->0),
            reads_error_body(status) && body is None ==> r == ClientError::StatusCode(status),
            status != 401 && status != 429 && !reads_error_body(status) ==> r
                == ClientError::StatusCode(status),
    {
        if status == 401 {
            ClientError::Unauthorized
        } else if status == 429 {
            let seconds = match retry_after {
                Some(v) => parse_retry_after(v),
                None => None,
            };
            ClientError::RateLimited(seconds)
        } else if status == 403 || status == 404 {
            match body {
                Some(e) => ClientError::Api(e),
                None => ClientError::StatusCode(status),
            }
        } else {
            ClientError::StatusCode(status)
        }
    }
}

} // verus!
