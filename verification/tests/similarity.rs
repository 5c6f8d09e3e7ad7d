use dejavu_similarity_api::detection::Detection;
use dejavu_similarity_api::similarity::{
    authenticate_websocket, next_socket_step, similarity_response, validate_similarity_request, websocket_response,
    DetectionAttempt, SimilarityRequest, SocketMessage, SocketStep, WebSocketRequest,
};

fn request(program: &str, ad: &str) -> SimilarityRequest {
    SimilarityRequest {
        uuid: "u-1".to_string(),
        programming_id: 7,
        programming_transcription: program.to_string(),
        advertisement_id: 9,
        advertisement_transcription: ad.to_string(),
    }
}

fn ws_request() -> WebSocketRequest {
    WebSocketRequest {
        uuid: "w-1".to_string(),
        programming_id: 3,
        programming_transcription: "programa".to_string(),
        advertisement_id: 4,
        advertisement_transcription: "anuncio".to_string(),
    }
}

#[test]
fn blank_transcriptions_are_refused() {
    let e = validate_similarity_request(&request("  \n", "anuncio")).err().unwrap();
    assert_eq!(e.status, 400);
    assert_eq!(e.message, "programming_transcription cannot be empty");
    let e = validate_similarity_request(&request("", "")).err().unwrap();
    assert_eq!(e.message, "programming_transcription cannot be empty");
    let e = validate_similarity_request(&request("programa", "\t")).err().unwrap();
    assert_eq!(e.status, 400);
    assert_eq!(e.message, "advertisement_transcription cannot be empty");
    assert!(validate_similarity_request(&request(" programa ", " anuncio ")).is_ok());
}

#[test]
fn analysis_answers() {
    let ok = similarity_response(request("p", "a"), Ok(Detection { match_found: true, score: 91 }));
    assert_eq!(ok.uuid, "u-1");
    assert_eq!(ok.programming_id, 7);
    assert_eq!(ok.advertisement_id, 9);
    assert_eq!(ok.programming_transcription, "p");
    assert_eq!(ok.advertisement_transcription, "a");
    assert!(ok.match_found);
    assert_eq!(ok.score, 91);
    assert_eq!(ok.error, None);
    let failed = similarity_response(request("p", "a"), Err("Failed to send request to similarity service".to_string()));
    assert!(!failed.match_found);
    assert_eq!(failed.score, 0);
    assert_eq!(failed.error.as_deref(), Some("Analysis failed: Failed to send request to similarity service"));
}

#[test]
fn websocket_answers() {
    let ok = websocket_response(ws_request(), DetectionAttempt::Finished(Ok(Detection { match_found: true, score: 5 })), 30);
    assert_eq!(ok.uuid, "w-1");
    assert!(ok.match_found);
    assert_eq!(ok.score, 5);
    assert_eq!(ok.error, None);
    let failed = websocket_response(ws_request(), DetectionAttempt::Finished(Err("boom".to_string())), 30);
    assert!(!failed.match_found);
    assert_eq!(failed.score, 0);
    assert_eq!(failed.error.as_deref(), Some("boom"));
    let late = websocket_response(ws_request(), DetectionAttempt::TimedOut, 45);
    assert_eq!(late.error.as_deref(), Some("Timeout after 45 seconds"));
    assert_eq!(late.programming_transcription, "programa");
    assert_eq!(late.advertisement_transcription, "anuncio");
}

#[test]
fn websocket_tokens() {
    let e = authenticate_websocket("", &Some("x".to_string())).err().unwrap();
    assert_eq!((e.status, e.message.as_str()), (500, "Authentication not configured"));
    let e = authenticate_websocket("secret", &None).err().unwrap();
    assert_eq!((e.status, e.message.as_str()), (401, "Authentication token required"));
    let e = authenticate_websocket("secret", &Some("".to_string())).err().unwrap();
    assert_eq!((e.status, e.message.as_str()), (401, "Authentication token required"));
    let e = authenticate_websocket("secret", &Some("guess".to_string())).err().unwrap();
    assert_eq!((e.status, e.message.as_str()), (401, "Invalid authentication token"));
    assert!(authenticate_websocket("secret", &Some("secret".to_string())).is_ok());
}

#[test]
fn socket_steps() {
    assert!(matches!(next_socket_step(SocketMessage::Broken), SocketStep::Close));
    assert!(matches!(next_socket_step(SocketMessage::NonText), SocketStep::Skip));
    assert!(matches!(next_socket_step(SocketMessage::Text(None)), SocketStep::Skip));
    match next_socket_step(SocketMessage::Text(Some(ws_request()))) {
        SocketStep::Process(r) => assert_eq!(r.uuid, "w-1"),
        _ => panic!(),
    }
}
