//! The telemetry push: one POST of a JSON payload to `<url>/ingest`.
use vstd::prelude::*;

use crate::endpoint::{ingest_endpoint, ingest_url};
use crate::transport::{build_client, is_http_status, post_json, response_status, response_text};

verus! {

/// The longest timeout a push accepts, in milliseconds: a `u32`'s worth of
/// seconds, far within what a deadline measured from now can hold.
pub const MAX_TIMEOUT_MS: u64 = 4_294_967_295_000;

/// The media type that every payload is sent as.
pub open spec fn json_media_type() -> Seq<char> {
    seq!['a', 'p', 'p', 'l', 'i', 'c', 'a', 't', 'i', 'o', 'n', '/', 'j', 's', 'o', 'n']
}

/// What is sent: the payload, verbatim, as JSON to the ingest endpoint of a
/// base URL, with the time allowed for a response.
#[derive(Debug)]
pub struct PushRequest {
    pub endpoint: String,
    pub payload: String,
    pub content_type: String,
    pub timeout_ms: u64,
}

impl PushRequest {
    /// The request for `json_payload` to the collector at base URL `url`,
    /// allowing `timeout_ms` milliseconds for a response.
    pub fn new(json_payload: &str, url: &str, timeout_ms: u64) -> (r: PushRequest)
        requires
            timeout_ms <= MAX_TIMEOUT_MS,
        ensures
            r.endpoint@ == ingest_url(url@),
            r.payload@ == json_payload@,
            r.content_type@ == json_media_type(),
            r.timeout_ms == timeout_ms,
    {
        let media = "application/json";
        proof {
            reveal_strlit("application/json");
        }
        assert(media@ =~= json_media_type());
        PushRequest {
            endpoint: ingest_endpoint(url),
            payload: String::from_str(json_payload),
            content_type: String::from_str(media),
            timeout_ms,
        }
    }
}

/// A completed HTTP exchange: the status code and the body the server sent.
#[derive(Debug)]
pub struct PushResult {
    pub status: u16,
    pub body: String,
}

/// Why no response was obtained.
#[derive(Debug)]
pub enum PushError {
    /// The HTTP client could not be built.
    ClientConstruction(String),
    /// The request did not complete: resolution, connection, TLS, timeout or framing.
    Transport(String),
}

impl PushError {
    /// The description of the failure that the error carries.
    pub open spec fn message_view(&self) -> Seq<char> {
        match self {
            PushError::ClientConstruction(m) => m@,
            PushError::Transport(m) => m@,
        }
    }

    /// The description of the failure.
    pub fn message(&self) -> (r: String)
        ensures
            r@ == self.message_view(),
    {
        match self {
            PushError::ClientConstruction(m) => m.clone(),
            PushError::Transport(m) => m.clone(),
        }
    }
}

/// The body that a push reports for the outcome of reading the response body.
pub open spec fn reported_body(body: Option<Seq<char>>) -> Seq<char> {
    match body {
        Some(b) => b,
        None => Seq::empty(),
    }
}

/// The status that folding an outcome into one result reports.
pub open spec fn folded_status(outcome: Result<PushResult, PushError>) -> u16 {
    match outcome {
        Ok(res) => res.status,
        Err(_) => 0,
    }
}

/// No response carries status `0`, so once a push's outcome is folded into one
/// result, status `0` marks exactly the pushes that obtained no response.
pub proof fn lemma_zero_status_marks_failure(outcome: Result<PushResult, PushError>)
    requires
        outcome is Ok ==> is_http_status(outcome->Ok_0.status),
    ensures
        folded_status(outcome) == 0 <==> outcome is Err,
{
}

impl PushResult {
    /// The result for a response with status `status` whose body was read as
    /// `body`, or could not be read (`None`): an unreadable body is reported
    /// as empty, never as a failure.
    pub fn from_exchange(status: u16, body: Option<String>) -> (r: PushResult)
        ensures
            r.status == status,
            r.body@ == reported_body(
                match body {
                    Some(b) => Some(b@),
                    None => None,
                },
            ),
    {
        match body {
            Some(b) => PushResult { status, body: b },
            None => PushResult { status, body: String::new() },
        }
    }

    /// The outcome folded into one result: a response is kept as it is, and a
    /// failure becomes status `0` with the failure's description as the body.
    pub fn from_outcome(outcome: Result<PushResult, PushError>) -> (r: PushResult)
        ensures
            r.status == folded_status(outcome),
            match outcome {
                Ok(res) => r.status == res.status && r.body@ == res.body@,
                Err(e) => r.status == 0 && r.body@ == e.message_view(),
            },
    {
        match outcome {
            Ok(res) => res,
            Err(e) => PushResult { status: 0, body: e.message() },
        }
    }
}

/// Sends `json_payload` with one POST to `<url>/ingest`, trailing slashes of
/// `url` removed, giving up once `timeout_ms` milliseconds have elapsed. Any
/// response, whatever its status, is a result; no response at all is an error.
///
/// It must not be called from inside an async runtime: `reqwest`'s blocking
/// client panics there.
pub fn perform_push(json_payload: &str, url: &str, timeout_ms: u64) -> (r: Result<
    PushResult,
    PushError,
>)
    requires
        timeout_ms <= MAX_TIMEOUT_MS,
    ensures
        r is Ok ==> is_http_status(r->Ok_0.status),
{
    let client = match build_client(timeout_ms) {
        Ok(c) => c,
        Err(e) => {
            return Err(PushError::ClientConstruction(e.to_string()));
        },
    };
    let request = PushRequest::new(json_payload, url, timeout_ms);
    let resp = match post_json(&client, &request) {
        Ok(resp) => resp,
        Err(e) => {
            return Err(PushError::Transport(e.to_string()));
        },
    };
    let status = response_status(&resp);
    let body = match response_text(resp) {
        Ok(text) => Some(text),
        Err(_) => None,
    };
    Ok(PushResult::from_exchange(status, body))
}

} // verus!
