//! The similarity endpoints: the REST analysis request and the similarity WebSocket,
//! with their validation, authentication and the responses they send.

use vstd::prelude::*;
use crate::detection::Detection;
use crate::text::{concatenate, decimal, is_blank, str_eq, trimmed, u64_to_decimal};

verus! {

/// An HTTP error answer: status code and message text.
pub struct HttpError {
    pub status: u16,
    pub message: String,
}

/// A request to compare a program transcription with an advertisement transcription.
pub struct SimilarityRequest {
    pub uuid: String,
    pub programming_id: i32,
    pub programming_transcription: String,
    pub advertisement_id: i32,
    pub advertisement_transcription: String,
}

/// The answer to a similarity request: the request echoed back with the verdict.
pub struct SimilarityResponse {
    pub uuid: String,
    pub programming_id: i32,
    pub programming_transcription: String,
    pub advertisement_id: i32,
    pub advertisement_transcription: String,
    pub match_found: bool,
    pub score: i32,
    pub error: Option<String>,
}

/// Query parameters of a WebSocket connection request.
pub struct AuthParams {
    pub token: Option<String>,
}

/// One similarity request received over the WebSocket.
pub struct WebSocketRequest {
    pub uuid: String,
    pub programming_id: i32,
    pub programming_transcription: String,
    pub advertisement_id: i32,
    pub advertisement_transcription: String,
}

/// The answer to one WebSocket similarity request.
pub struct WebSocketResponse {
    pub uuid: String,
    pub programming_id: i32,
    pub programming_transcription: String,
    pub advertisement_id: i32,
    pub advertisement_transcription: String,
    pub match_found: bool,
    pub score: i32,
    pub error: Option<String>,
}

/// An HTTP error with the given status and message.
pub open spec fn http_error(e: HttpError, status: u16, message: Seq<char>) -> bool {
    e.status == status && e.message@ == message
}

/// Checks that both transcriptions hold more than white space.
pub fn validate_similarity_request(request: &SimilarityRequest) -> (r: Result<(), HttpError>)
    ensures
        r is Ok <==> (trimmed(request.programming_transcription@).len() > 0 && trimmed(
            request.advertisement_transcription@,
        ).len() > 0),
        trimmed(request.programming_transcription@).len() == 0 ==> (r matches Err(e)
            && http_error(e, 400, "programming_transcription cannot be empty"@)),
        trimmed(request.programming_transcription@).len() > 0 && trimmed(
            request.advertisement_transcription@,
        ).len() == 0 ==> (r matches Err(e) && http_error(
            e,
            400,
            "advertisement_transcription cannot be empty"@,
        )),
{
    if is_blank(request.programming_transcription.as_str()) {
        return Err(
            HttpError {
                status: 400,
                message: String::from_str("programming_transcription cannot be empty"),
            },
        );
    }
    if is_blank(request.advertisement_transcription.as_str()) {
        return Err(
            HttpError {
                status: 400,
                message: String::from_str("advertisement_transcription cannot be empty"),
            },
        );
    }
    Ok(())
}

/// The answer to a similarity request once the detector has answered: the verdict when it
/// succeeded, otherwise no match, score 0 and `"Analysis failed: "` before its message.
pub fn similarity_response(request: SimilarityRequest, outcome: Result<Detection, String>) -> (r:
    SimilarityResponse)
    ensures
        r.uuid == request.uuid,
        r.programming_id == request.programming_id,
        r.programming_transcription == request.programming_transcription,
        r.advertisement_id == request.advertisement_id,
        r.advertisement_transcription == request.advertisement_transcription,
        match outcome {
            Ok(d) => r.match_found == d.match_found && r.score == d.score && r.error is None,
            Err(m) => !r.match_found && r.score == 0 && (r.error matches Some(e) && e@
                == "Analysis failed: "@ + m@),
        },
{
    let (match_found, score, error) = match outcome {
        Ok(d) => (d.match_found, d.score, None),
        Err(m) => (false, 0i32, Some(concatenate("Analysis failed: ", m.as_str()))),
    };
    SimilarityResponse {
        uuid: request.uuid,
        programming_id: request.programming_id,
        programming_transcription: request.programming_transcription,
        advertisement_id: request.advertisement_id,
        advertisement_transcription: request.advertisement_transcription,
        match_found,
        score,
        error,
    }
}

/// How one detection task over the WebSocket ended: with the detector's outcome, or cut off
/// by the task timeout.
pub enum DetectionAttempt {
    Finished(Result<Detection, String>),
    TimedOut,
}

/// The message of a task cut off after `seconds` seconds.
pub open spec fn timeout_message(seconds: u64) -> Seq<char> {
    "Timeout after "@ + decimal(seconds as nat) + " seconds"@
}

/// The answer to one WebSocket request: the verdict when detection succeeded; otherwise no
/// match, score 0 and the detector's message, or the timeout message.
pub fn websocket_response(request: WebSocketRequest, attempt: DetectionAttempt, timeout_seconds: u64)
    -> (r: WebSocketResponse)
    ensures
        r.uuid == request.uuid,
        r.programming_id == request.programming_id,
        r.programming_transcription == request.programming_transcription,
        r.advertisement_id == request.advertisement_id,
        r.advertisement_transcription == request.advertisement_transcription,
        match attempt {
            DetectionAttempt::Finished(Ok(d)) => r.match_found == d.match_found && r.score
                == d.score && r.error is None,
            DetectionAttempt::Finished(Err(m)) => !r.match_found && r.score == 0 && r.error
                == Some(m),
            DetectionAttempt::TimedOut => !r.match_found && r.score == 0 && (r.error matches Some(
                e,
            ) && e@ == timeout_message(timeout_seconds)),
        },
{
    let (match_found, score, error) = match attempt {
        DetectionAttempt::Finished(Ok(d)) => (d.match_found, d.score, None),
        DetectionAttempt::Finished(Err(m)) => (false, 0i32, Some(m)),
        DetectionAttempt::TimedOut => {
            let secs = u64_to_decimal(timeout_seconds);
            let m = concatenate("Timeout after ", secs.as_str());
            (false, 0i32, Some(concatenate(m.as_str(), " seconds")))
        },
    };
    WebSocketResponse {
        uuid: request.uuid,
        programming_id: request.programming_id,
        programming_transcription: request.programming_transcription,
        advertisement_id: request.advertisement_id,
        advertisement_transcription: request.advertisement_transcription,
        match_found,
        score,
        error,
    }
}

/// The token a client offered, or the empty string when it offered none.
pub open spec fn offered_token(provided: Option<String>) -> Seq<char> {
    match provided {
        Some(t) => t@,
        None => Seq::empty(),
    }
}

/// A client is let in when a token is configured and it offered exactly that token.
pub open spec fn token_accepted(expected: Seq<char>, provided: Option<String>) -> bool {
    expected.len() > 0 && offered_token(provided) == expected
}

/// Checks the token of a WebSocket connection request against the configured token
/// (empty when none is configured).
pub fn authenticate_websocket(expected_token: &str, provided: &Option<String>) -> (r: Result<
    (),
    HttpError,
>)
    ensures
        r is Ok <==> token_accepted(expected_token@, *provided),
        expected_token@.len() == 0 ==> (r matches Err(e) && http_error(
            e,
            500,
            "Authentication not configured"@,
        )),
        expected_token@.len() > 0 && offered_token(*provided).len() == 0 ==> (r matches Err(e)
            && http_error(e, 401, "Authentication token required"@)),
        expected_token@.len() > 0 && offered_token(*provided).len() > 0 && offered_token(
            *provided,
        ) != expected_token@ ==> (r matches Err(e) && http_error(
            e,
            401,
            "Invalid authentication token"@,
        )),
{
    if expected_token.unicode_len() == 0 {
        return Err(
            HttpError { status: 500, message: String::from_str("Authentication not configured") },
        );
    }
    let offered = match provided {
        Some(t) => t.as_str(),
        None => "",
    };
    proof {
        reveal_strlit("");
    }
    if offered.unicode_len() == 0 {
        return Err(
            HttpError { status: 401, message: String::from_str("Authentication token required") },
        );
    }
    if !str_eq(offered, expected_token) {
        return Err(
            HttpError { status: 401, message: String::from_str("Invalid authentication token") },
        );
    }
    Ok(())
}

/// What arrived on the similarity WebSocket.
pub enum SocketMessage {
    /// The connection failed.
    Broken,
    /// A message that is not text.
    NonText,
    /// A text message, read as a request when it is one.
    Text(Option<WebSocketRequest>),
}

/// What the connection does with a message.
pub enum SocketStep {
    Close,
    Skip,
    Process(WebSocketRequest),
}

/// The connection closes when it breaks, skips what is not a request and processes requests.
pub fn next_socket_step(message: SocketMessage) -> (r: SocketStep)
    ensures
        match message {
            SocketMessage::Broken => r is Close,
            SocketMessage::NonText => r is Skip,
            SocketMessage::Text(None) => r is Skip,
            SocketMessage::Text(Some(req)) => r == SocketStep::Process(req),
        },
{
    match message {
        SocketMessage::Broken => SocketStep::Close,
        SocketMessage::NonText => SocketStep::Skip,
        SocketMessage::Text(None) => SocketStep::Skip,
        SocketMessage::Text(Some(req)) => SocketStep::Process(req),
    }
}

} // verus!
