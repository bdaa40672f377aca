//! The blocking HTTP client of `reqwest`, as the push uses it.
//!
//! Everything here is taken on trust: what a network exchange yields depends
//! on the network, so the contracts state only what holds of every outcome.
//! `reqwest`'s blocking client runs its own runtime thread and panics when it
//! is built or dropped inside an async runtime: callers stay outside one.
use vstd::prelude::*;

use crate::push::{PushRequest, MAX_TIMEOUT_MS};

verus! {

#[verifier::external_type_specification]
#[verifier::external_body]
pub struct ExClient(reqwest::blocking::Client);

#[verifier::external_type_specification]
#[verifier::external_body]
pub struct ExResponse(reqwest::blocking::Response);

#[verifier::external_type_specification]
#[verifier::external_body]
pub struct ExError(reqwest::Error);

/// A status code as HTTP carries it: `http::StatusCode` admits 100 to 999.
pub open spec fn is_http_status(code: u16) -> bool {
    100 <= code <= 999
}

/// Relies on `reqwest::blocking::ClientBuilder::timeout` and `build`: a client
/// whose requests fail once `timeout_ms` milliseconds have elapsed, or the
/// error that kept it from being built (a TLS backend that cannot start).
/// `Duration::from_millis` takes any `u64`; the bound keeps the client's
/// deadlines within what `Instant` can hold.
#[verifier::external_body]
pub(crate) fn build_client(timeout_ms: u64) -> (r: Result<reqwest::blocking::Client, reqwest::Error>)
    requires
        timeout_ms <= MAX_TIMEOUT_MS,
{
    reqwest::blocking::Client::builder().timeout(std::time::Duration::from_millis(timeout_ms)).build()
}

/// Relies on `reqwest::blocking::Client::post` with `RequestBuilder::header`,
/// `body`, `timeout` and `send`: one POST of the request's payload to its
/// endpoint, with its content type as `Content-Type`, and the response or the
/// transport error. The request's own timeout takes the place of the client's,
/// and `send` adds it to `Instant::now()`, which panics on overflow: the bound
/// keeps that sum within range.
#[verifier::external_body]
pub(crate) fn post_json(client: &reqwest::blocking::Client, request: &PushRequest) -> (r: Result<
    reqwest::blocking::Response,
    reqwest::Error,
>)
    requires
        request.timeout_ms <= MAX_TIMEOUT_MS,
{
    client.post(request.endpoint.as_str()).header(
        reqwest::header::CONTENT_TYPE,
        request.content_type.as_str(),
    ).body(request.payload.clone()).timeout(std::time::Duration::from_millis(request.timeout_ms)).send()
}

/// Relies on `reqwest::blocking::Response::status` and `http::StatusCode::as_u16`:
/// the numeric status, which `StatusCode` keeps within 100 to 999.
#[verifier::external_body]
pub(crate) fn response_status(resp: &reqwest::blocking::Response) -> (r: u16)
    ensures
        is_http_status(r),
{
    resp.status().as_u16()
}

/// Relies on `reqwest::blocking::Response::text`: the body decoded as text, or
/// the error that kept it from being read.
#[verifier::external_body]
pub(crate) fn response_text(resp: reqwest::blocking::Response) -> (r: Result<String, reqwest::Error>) {
    resp.text()
}

} // verus!
