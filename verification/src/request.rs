//! The explicit request form the pipeline hands to the transport: method,
//! URL, headers and body, assembled by pure functions. The transport
//! itself — anything that can send such a request and hand back a status
//! and a body — stays behind the [`Transport`] trait, so tests can supply
//! a mock and the surrounding program a real HTTP client.

use vstd::prelude::*;

verus! {

use vstd::string::StringExecFns;

/// The HTTP methods the exchange's endpoints use.
#[derive(Clone, Copy, Debug, PartialEq, Eq, Structural)]
pub enum Method {
    Get,
    Post,
    Put,
    Delete,
}

/// A fully built request: everything the transport needs to send it.
/// Bodies are JSON text; an empty string means no body.
#[derive(Debug)]
pub struct RequestSpec {
    pub method: Method,
    pub url: String,
    pub headers: Vec<(String, String)>,
    pub body: String,
}

/// A response as the transport reports it: the status code and the fully
/// read body, consumed exactly once.
#[derive(Debug)]
pub struct HttpResponse {
    pub status: u16,
    pub body: Vec<u8>,
}

/// A transport-level failure: the server could not be reached at all.
#[derive(Clone, Copy, Debug, PartialEq, Eq, Structural)]
pub struct TransportFailure;

/// Anything that can send a built request and return the response's
/// status and body, or fail at the transport level. Nothing is assumed of
/// an implementation; callers handle every outcome.
pub trait Transport {
    fn send(&mut self, request: &RequestSpec) -> Result<HttpResponse, TransportFailure>;
}

/// The views of a header list.
pub open spec fn header_views(headers: Seq<(String, String)>) -> Seq<(Seq<char>, Seq<char>)> {
    Seq::new(headers.len(), |i: int| (headers[i].0@, headers[i].1@))
}

/// The value of the `Authorization` header for a token.
pub open spec fn spec_bearer(token: Seq<char>) -> Seq<char> {
    "Bearer "@ + token
}

/// The headers every request carries: JSON accepted, bearer authorization.
pub open spec fn spec_default_headers(token: Seq<char>) -> Seq<(Seq<char>, Seq<char>)> {
    seq![("Accept"@, "application/json"@), ("Authorization"@, spec_bearer(token))]
}

/// The headers of a request with a JSON body.
pub open spec fn spec_json_headers(token: Seq<char>) -> Seq<(Seq<char>, Seq<char>)> {
    spec_default_headers(token).push(("Content-Type"@, "application/json"@))
}

/// The bearer rendering is injective: requests built for different
/// credentials carry different `Authorization` values. With the token
/// request built from the API secret and every resource request built
/// from an access token, a resource request carries the secret only if
/// the two coincide.
pub proof fn lemma_bearer_injective(a: Seq<char>, b: Seq<char>)
    requires
        spec_bearer(a) == spec_bearer(b),
    ensures
        a == b,
{
    let p = "Bearer "@;
    assert((p + a).len() == (p + b).len());
    assert(a.len() == b.len());
    assert forall|i: int| 0 <= i < a.len() implies a[i] == b[i] by {
        assert((p + a)[p.len() + i] == a[i]);
        assert((p + b)[p.len() + i] == b[i]);
    }
    assert(a =~= b);
}

/// Renders the `Authorization` value `Bearer {token}`.
pub fn bearer_value(token: &str) -> (r: String)
    ensures
        r@ == spec_bearer(token@),
{
    let mut out = "Bearer ".to_owned();
    out.append(token);
    out
}

/// The `Accept` and `Authorization` headers every request carries.
pub fn default_headers(token: &str) -> (r: Vec<(String, String)>)
    ensures
        header_views(r@) == spec_default_headers(token@),
{
    let mut headers: Vec<(String, String)> = Vec::new();
    headers.push(("Accept".to_owned(), "application/json".to_owned()));
    headers.push(("Authorization".to_owned(), bearer_value(token)));
    proof {
        assert(header_views(headers@) =~= spec_default_headers(token@));
    }
    headers
}

/// The default headers plus `Content-Type` for a JSON body.
pub fn json_headers(token: &str) -> (r: Vec<(String, String)>)
    ensures
        header_views(r@) == spec_json_headers(token@),
{
    let mut headers = default_headers(token);
    headers.push(("Content-Type".to_owned(), "application/json".to_owned()));
    proof {
        assert(header_views(headers@) =~= spec_json_headers(token@));
    }
    headers
}

/// What a bodyless request to `url` looks like for a token.
pub open spec fn spec_bodyless_request(
    method: Method,
    token: Seq<char>,
    url: Seq<char>,
    r: RequestSpec,
) -> bool {
    &&& r.method == method
    &&& r.url@ == url
    &&& header_views(r.headers@) == spec_default_headers(token)
    &&& r.body@ == Seq::<char>::empty()
}

/// What a JSON-carrying request to `url` looks like for a token.
pub open spec fn spec_json_request(
    method: Method,
    token: Seq<char>,
    url: Seq<char>,
    body: Seq<char>,
    r: RequestSpec,
) -> bool {
    &&& r.method == method
    &&& r.url@ == url
    &&& header_views(r.headers@) == spec_json_headers(token)
    &&& r.body@ == body
}

/// Builds a GET request with the default headers and no body.
pub fn create_get_request_with_url(token: &str, url: &str) -> (r: RequestSpec)
    ensures
        spec_bodyless_request(Method::Get, token@, url@, r),
{
    RequestSpec {
        method: Method::Get,
        url: url.to_owned(),
        headers: default_headers(token),
        body: String::new(),
    }
}

/// Builds a POST request with the default headers and no body.
pub fn create_post_request_with_url(token: &str, url: &str) -> (r: RequestSpec)
    ensures
        spec_bodyless_request(Method::Post, token@, url@, r),
{
    RequestSpec {
        method: Method::Post,
        url: url.to_owned(),
        headers: default_headers(token),
        body: String::new(),
    }
}

/// Builds a request that carries a JSON body, with `Content-Type` set.
pub fn create_json_request_with_url(method: Method, token: &str, url: &str, body: String) -> (r:
    RequestSpec)
    ensures
        spec_json_request(method, token@, url@, body@, r),
{
    RequestSpec { method, url: url.to_owned(), headers: json_headers(token), body }
}

} // verus!
