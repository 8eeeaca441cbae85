//! Request preparation: URL resolution, authentication headers and the
//! placement of the payload by HTTP method.
use vstd::prelude::*;

use crate::client::Spotify;

verus! {

/// Declares `serde_json::Value`, carried opaquely as a JSON payload.
#[verifier::external_type_specification]
#[verifier::external_body]
pub struct ExJsonValue(serde_json::Value);

/// HTTP methods a request can be made with.
#[derive(Clone, Copy, Debug, PartialEq, Eq, Structural)]
pub enum Method {
    Get,
    Post,
    Put,
    Delete,
    Head,
    Options,
    Patch,
}

/// What a request carries besides its path.
#[derive(Debug)]
pub enum Payload {
    /// A key to string mapping, in the order given.
    Params(Vec<(String, String)>),
    /// A JSON value.
    Json(serde_json::Value),
}

/// Where the payload of a request goes.
#[derive(Clone, Copy, Debug, PartialEq, Eq, Structural)]
pub enum Placement {
    /// Encoded as query parameters of the URL.
    Query,
    /// Serialized as the JSON request body.
    Body,
    /// Not sent.
    Omitted,
}

/// Where the bearer token of a request comes from.
#[derive(Clone, Debug)]
pub enum TokenSource {
    /// The configured static access token.
    Static(String),
    /// A token obtained from the credentials manager for this request.
    Managed,
}

/// A request ready to be sent: everything but the transport.
#[derive(Debug)]
pub struct Request {
    pub method: Method,
    pub url: String,
    /// The value of the `Authorization` header.
    pub authorization: String,
    /// The value of the `Content-Type` header.
    pub content_type: String,
    pub placement: Placement,
    pub payload: Payload,
}

/// GET sends its payload as query parameters; POST, PUT and DELETE as a JSON
/// body; other methods send none.
pub open spec fn placement_of(method: Method) -> Placement {
    match method {
        Method::Get => Placement::Query,
        Method::Post | Method::Put | Method::Delete => Placement::Body,
        _ => Placement::Omitted,
    }
}

/// An absolute URL (one that starts with `http`) stays as it is; any other
/// path is taken relative to `prefix`.
pub open spec fn resolved_url(prefix: Seq<char>, path: Seq<char>) -> Seq<char> {
    if "http"@.is_prefix_of(path) {
        path
    } else {
        prefix + path
    }
}

/// The `Authorization` header value for a bearer token.
pub open spec fn bearer(token: Seq<char>) -> Seq<char> {
    "Bearer "@ + token
}

/// Whether `s` starts with `p`.
fn starts_with(s: &str, p: &str) -> (r: bool)
    ensures
        r == p@.is_prefix_of(s@),
{
    let n = p.unicode_len();
    if s.unicode_len() < n {
        return false;
    }
    let mut i: usize = 0;
    while i < n
        invariant
            n == p@.len(),
            n <= s@.len(),
            i <= n,
            forall|j: int| 0 <= j < i ==> p@[j] == s@[j],
        decreases n - i,
    {
        if p.get_char(i) != s.get_char(i) {
            return false;
        }
        i = i + 1;
    }
    assert(p@ =~= s@.subrange(0, n as int));
    true
}

impl Method {
    /// Where a request with this method places its payload.
    pub fn placement(&self) -> (r: Placement)
        ensures
            r == placement_of(*self),
    {
        match self {
            Method::Get => Placement::Query,
            Method::Post | Method::Put | Method::Delete => Placement::Body,
            _ => Placement::Omitted,
        }
    }
}

/// The `Authorization` header value for `token`.
pub fn auth_header(token: &str) -> (r: String)
    ensures
        r@ == bearer(token@),
{
    let mut header = String::from_str("Bearer ");
    header.append(token);
    header
}

impl Spotify {
    /// Where the token for the next request comes from: the static token
    /// when one is set, the credentials manager otherwise.
    pub fn token_source(&self) -> (r: TokenSource)
        requires
            self.has_token_source(),
        ensures
            self.access_token matches Some(t) ==> r == TokenSource::Static(t),
            self.access_token is None ==> r is Managed,
    {
        match &self.access_token {
            Some(t) => TokenSource::Static(t.clone()),
            None => TokenSource::Managed,
        }
    }

    /// The absolute URL of `path`.
    pub fn resolve_url(&self, path: &str) -> (r: String)
        ensures
            r@ == resolved_url(self.prefix@, path@),
    {
        if starts_with(path, "http") {
            path.to_owned()
        } else {
            let mut url = self.prefix.clone();
            url.append(path);
            url
        }
    }

    /// Prepares a request to `path` authenticated with `token`, with the
    /// payload placed as `method` requires.
    pub fn prepare(&self, method: Method, path: &str, payload: Payload, token: &str) -> (r:
        Request)
        ensures
            r.method == method,
            r.url@ == resolved_url(self.prefix@, path@),
            r.authorization@ == bearer(token@),
            r.content_type@ == "application/json"@,
            r.placement == placement_of(method),
            r.payload == payload,
    {
        Request {
            method,
            url: self.resolve_url(path),
            authorization: auth_header(token),
            content_type: "application/json".to_owned(),
            placement: method.placement(),
            payload,
        }
    }
}

} // verus!
