//! The clients of the semantic-similarity service: where they send requests and how a
//! reply from the service is turned into a detection or an error message.

use vstd::prelude::*;
use crate::text::{concatenate, decimal};

verus! {

/// What the caller reads of a detection: whether the advertisement was found in the
/// program text, and the score the service gave.
#[derive(Clone, Copy)]
pub struct Detection {
    pub match_found: bool,
    pub score: i32,
}

/// The error object that the similarity scripts and services reply with.
pub struct ErrorResponse {
    pub error: String,
}

/// A reply of a service: its HTTP status code, and its body text when it could be read.
pub struct HttpReply {
    pub status: u16,
    pub body: Option<String>,
}

/// Seconds the persistent similarity service client waits for a reply.
pub const SIMILARITY_SERVICE_TIMEOUT_SECS: u64 = 60;

/// Seconds the semantic detector waits for one detection request.
pub const SEMANTIC_DETECTOR_TIMEOUT_SECS: u64 = 30;

/// The name of the reason phrase that `http::StatusCode::canonical_reason` gives for a code
/// (e.g. `"Not Found"` for 404), `None` for a code without one.
pub uninterp spec fn status_reason_phrase(code: u16) -> Option<Seq<char>>;

/// The text of a status code as `Display` for `http::StatusCode` writes it:
/// the code, a space, and its reason phrase or `"<unknown status code>"`.
pub open spec fn status_text(code: u16) -> Seq<char> {
    decimal(code as nat) + seq![' '] + match status_reason_phrase(code) {
        Some(p) => p,
        None => "<unknown status code>"@,
    }
}

/// A status in `200..300`, which `http::StatusCode::is_success` accepts.
pub open spec fn is_success_status(code: u16) -> bool {
    200 <= code && code < 300
}

/// Whether a status code is a success (reqwest `StatusCode::from_u16` and `is_success`).
/// Trusted: http's source checks `(200..300).contains(code)`; codes that `from_u16` refuses
/// (outside `100..=999`) lie outside that range too.
#[verifier::external_body]
pub(crate) fn status_is_success(code: u16) -> (r: bool)
    ensures
        r == is_success_status(code),
{
    match reqwest::StatusCode::from_u16(code) {
        Ok(status) => status.is_success(),
        Err(_) => false,
    }
}

/// The text of a status code (reqwest `StatusCode` through `Display`).
/// Trusted: http's `Display` writes `"{code} {reason}"`, the reason being
/// `canonical_reason()` or `"<unknown status code>"`; the table of reasons is named
/// `status_reason_phrase`.
#[verifier::external_body]
pub(crate) fn status_line(code: u16) -> (r: String)
    requires
        100 <= code <= 999,
    ensures
        r@ == decimal(code as nat) + seq![' '] + match status_reason_phrase(code) {
            Some(p) => p,
            None => "<unknown status code>"@,
        },
{
    match reqwest::StatusCode::from_u16(code) {
        Ok(status) => status.to_string(),
        Err(_) => String::new(),
    }
}

/// A reply body, or `"Unknown error"` when it could not be read.
pub open spec fn body_or_unknown(body: Option<String>) -> Seq<char> {
    match body {
        Some(b) => b@,
        None => "Unknown error"@,
    }
}

fn body_text_or_unknown(body: &Option<String>) -> (r: String)
    ensures
        r@ == body_or_unknown(*body),
{
    match body {
        Some(b) => b.clone(),
        None => String::from_str("Unknown error"),
    }
}

/// The semantic detector's message for a reply whose status is not a success, given the
/// status as text (`"500 Internal Server Error"`) and the reply body.
pub fn detector_status_error(status: &str, body: &Option<String>) -> (r: String)
    ensures
        r@ == "Similarity service returned error "@ + status@ + ": "@ + body_or_unknown(*body),
{
    let body = body_text_or_unknown(body);
    let m = concatenate("Similarity service returned error ", status);
    let m = concatenate(m.as_str(), ": ");
    concatenate(m.as_str(), body.as_str())
}

/// The similarity service client's message for a reply whose status is not a success.
pub fn service_status_error(status: &str, body: &Option<String>) -> (r: String)
    ensures
        r@ == "Similarity service error "@ + status@ + ": "@ + body_or_unknown(*body),
{
    let body = body_text_or_unknown(body);
    let m = concatenate("Similarity service error ", status);
    let m = concatenate(m.as_str(), ": ");
    concatenate(m.as_str(), body.as_str())
}

/// The message of an error raised by a detector or by the similarity service client.
pub open spec fn send_failure_message() -> Seq<char> {
    "Failed to send request to similarity service"@
}

/// What `SemanticDetector::detect_advertisement` makes of a reply: `reply` is `None` when the
/// request could not be sent, `parsed` is the reply body read as a detection result
/// (`None` when that failed).
pub open spec fn semantic_detector_result(reply: Option<HttpReply>, parsed: Option<Detection>)
    -> Result<Detection, Seq<char>> {
    match reply {
        None => Err(send_failure_message()),
        Some(r) => if !is_success_status(r.status) {
            Err("Similarity service returned error "@ + status_text(r.status) + ": "@
                + body_or_unknown(r.body))
        } else {
            match parsed {
                Some(d) => Ok(d),
                None => Err("Failed to parse similarity service response"@),
            }
        },
    }
}

/// What `SimilarityService::detect_advertisement` makes of a reply: `error_field` is the
/// `error` of the body read as an error object (`None` when the body is no such object),
/// `parsed` the body read as a detection result.
pub open spec fn similarity_service_result(
    reply: Option<HttpReply>,
    error_field: Option<String>,
    parsed: Option<Detection>,
) -> Result<Detection, Seq<char>> {
    match reply {
        None => Err(send_failure_message()),
        Some(r) => if !is_success_status(r.status) {
            Err("Similarity service error "@ + status_text(r.status) + ": "@ + body_or_unknown(
                r.body,
            ))
        } else if r.body is None {
            Err("Failed to read similarity service response"@)
        } else {
            match error_field {
                Some(e) => Err("Similarity service error: "@ + e@),
                None => match parsed {
                    Some(d) => Ok(d),
                    None => Err("Failed to parse similarity service JSON response"@),
                },
            }
        },
    }
}

/// A detection outcome with the error message as a string's characters.
pub open spec fn outcome_view(r: Result<Detection, String>) -> Result<Detection, Seq<char>> {
    match r {
        Ok(d) => Ok(d),
        Err(e) => Err(e@),
    }
}

/// A status code that a received reply can carry.
pub open spec fn valid_reply(reply: Option<HttpReply>) -> bool {
    reply matches Some(r) ==> 100 <= r.status <= 999
}

/// Decides the outcome of one semantic detector request from the service's reply.
pub fn semantic_detector_outcome(reply: Option<HttpReply>, parsed: Option<Detection>) -> (r:
    Result<Detection, String>)
    requires
        valid_reply(reply),
    ensures
        outcome_view(r) == semantic_detector_result(reply, parsed),
        (reply matches Some(rep) && is_success_status(rep.status)) ==> match parsed {
            Some(d) => r == Ok::<Detection, String>(d),
            None => r is Err,
        },
{
    match reply {
        None => Err(String::from_str("Failed to send request to similarity service")),
        Some(rep) => {
            if !status_is_success(rep.status) {
                let status = status_line(rep.status);
                assert(status@ == status_text(rep.status));
                Err(detector_status_error(status.as_str(), &rep.body))
            } else {
                match parsed {
                    Some(d) => Ok(d),
                    None => Err(String::from_str("Failed to parse similarity service response")),
                }
            }
        },
    }
}

/// Decides the outcome of one similarity service request from the service's reply.
pub fn similarity_service_outcome(
    reply: Option<HttpReply>,
    error_field: Option<String>,
    parsed: Option<Detection>,
) -> (r: Result<Detection, String>)
    requires
        valid_reply(reply),
    ensures
        outcome_view(r) == similarity_service_result(reply, error_field, parsed),
        (reply matches Some(rep) && is_success_status(rep.status) && rep.body is Some) ==> match (
            error_field,
            parsed,
        ) {
            (None, Some(d)) => r == Ok::<Detection, String>(d),
            _ => r is Err,
        },
{
    match reply {
        None => Err(String::from_str("Failed to send request to similarity service")),
        Some(rep) => {
            if !status_is_success(rep.status) {
                let status = status_line(rep.status);
                assert(status@ == status_text(rep.status));
                Err(service_status_error(status.as_str(), &rep.body))
            } else if rep.body.is_none() {
                Err(String::from_str("Failed to read similarity service response"))
            } else {
                match error_field {
                    Some(e) => Err(concatenate("Similarity service error: ", e.as_str())),
                    None => match parsed {
                        Some(d) => Ok(d),
                        None => Err(
                            String::from_str("Failed to parse similarity service JSON response"),
                        ),
                    },
                }
            }
        },
    }
}

/// Where the semantic detector sends requests: the configured URL, or the local default.
pub fn semantic_detector_url(setting: Option<String>) -> (r: String)
    ensures
        r@ == (match setting {
            Some(s) => s@,
            None => "http://127.0.0.1:8002/detect"@,
        }),
{
    match setting {
        Some(s) => s,
        None => String::from_str("http://127.0.0.1:8002/detect"),
    }
}

/// The base URL of the similarity service: the configured URL, or the local default.
pub fn similarity_service_url(setting: Option<String>) -> (r: String)
    ensures
        r@ == (match setting {
            Some(s) => s@,
            None => "http://127.0.0.1:8002"@,
        }),
{
    match setting {
        Some(s) => s,
        None => String::from_str("http://127.0.0.1:8002"),
    }
}

/// The body of a detection request to either similarity service.
pub struct DetectionPayload {
    pub program_text: String,
    pub ad_text: String,
}

/// The body of a detection request: the program's transcription as `program_text`, the
/// advertisement's as `ad_text`.
pub fn detection_payload(program_text: &str, ad_text: &str) -> (r: DetectionPayload)
    ensures
        r.program_text@ == program_text@,
        r.ad_text@ == ad_text@,
{
    DetectionPayload {
        program_text: String::from_str(program_text),
        ad_text: String::from_str(ad_text),
    }
}

/// The detection endpoint under the similarity service's base URL.
pub fn detect_endpoint(base: &str) -> (r: String)
    ensures
        r@ == base@ + "/detect"@,
{
    concatenate(base, "/detect")
}

/// The configured limit on concurrent detection tasks.
pub open spec fn configured_limit(setting: Option<String>) -> Option<nat> {
    match setting {
        Some(s) => crate::text::parse_bounded(s@, usize::MAX as nat),
        None => None,
    }
}

/// How many detection tasks one connection runs at once: the configured number when it
/// parses as a `usize`, otherwise the number of CPUs (num_cpus `get`), which is at least 1.
pub fn max_concurrent_tasks(setting: Option<String>) -> (r: usize)
    ensures
        match configured_limit(setting) {
            Some(v) => r == v,
            None => r >= 1,
        },
{
    match configured_limit_value(&setting) {
        Some(v) => v,
        None => cpu_count(),
    }
}

fn configured_limit_value(setting: &Option<String>) -> (r: Option<usize>)
    ensures
        r == (match configured_limit(*setting) {
            Some(v) => Some(v as usize),
            None => None::<usize>,
        }),
{
    match setting {
        Some(s) => crate::text::parse_usize(s.as_str()),
        None => None,
    }
}

/// The number of logical CPUs available (num_cpus `get`).
/// Trusted: depends on the machine; num_cpus documents that it is always at least 1.
#[verifier::external_body]
fn cpu_count() -> (r: usize)
    ensures
        r >= 1,
{
    num_cpus::get()
}

/// Seconds a detection task may take: the configured number when it parses as a `u64`,
/// otherwise 30.
pub fn task_timeout_seconds(setting: Option<String>) -> (r: u64)
    ensures
        match setting {
            Some(s) => match crate::text::parse_bounded(s@, u64::MAX as nat) {
                Some(v) => r == v,
                None => r == 30,
            },
            None => r == 30,
        },
{
    let parsed = match &setting {
        Some(s) => crate::text::parse_u64(s.as_str()),
        None => None,
    };
    match parsed {
        Some(v) => v,
        None => 30,
    }
}

/// The semantic detector hands on the service's verdict unchanged: on a success status
/// with a detection read from the body, the outcome is that detection, its `match_found`
/// and its score as the service gave them; any other reply is an error.
pub proof fn lemma_detector_keeps_service_verdict(reply: Option<HttpReply>, parsed: Option<Detection>)
    ensures
        semantic_detector_result(reply, parsed) is Ok <==> (reply matches Some(r)
            && is_success_status(r.status) && parsed is Some),
        semantic_detector_result(reply, parsed) is Ok ==> semantic_detector_result(reply, parsed)
            == Ok::<Detection, Seq<char>>(parsed.unwrap()),
{
}

/// The similarity service client hands on the service's verdict unchanged: on a success
/// status with a body that is no error object and reads as a detection, the outcome is that
/// detection; any other reply is an error.
pub proof fn lemma_service_keeps_verdict(
    reply: Option<HttpReply>,
    error_field: Option<String>,
    parsed: Option<Detection>,
)
    ensures
        similarity_service_result(reply, error_field, parsed) is Ok <==> (reply matches Some(r)
            && is_success_status(r.status) && r.body is Some && error_field is None
            && parsed is Some),
        similarity_service_result(reply, error_field, parsed) is Ok ==> similarity_service_result(
            reply,
            error_field,
            parsed,
        ) == Ok::<Detection, Seq<char>>(parsed.unwrap()),
{
}

} // verus!
