use dejavu_similarity_api::detection::{
    detect_endpoint, detector_status_error, max_concurrent_tasks, semantic_detector_outcome, semantic_detector_url,
    service_status_error, similarity_service_outcome, similarity_service_url, task_timeout_seconds, Detection, HttpReply,
};

fn reply(status: u16, body: Option<&str>) -> Option<HttpReply> {
    Some(HttpReply { status, body: body.map(|b| b.to_string()) })
}

fn detector_error(status: u16) -> Option<String> {
    semantic_detector_outcome(reply(status, Some("body")), Some(Detection { match_found: true, score: 1 })).err()
}

#[test]
fn success_statuses() {
    assert_eq!(detector_error(200), None);
    assert_eq!(detector_error(204), None);
    assert_eq!(detector_error(299), None);
    assert_eq!(detector_error(199).as_deref(), Some("Similarity service returned error 199 <unknown status code>: body"));
    assert_eq!(detector_error(300).as_deref(), Some("Similarity service returned error 300 Multiple Choices: body"));
    assert_eq!(detector_error(404).as_deref(), Some("Similarity service returned error 404 Not Found: body"));
}

#[test]
fn status_lines() {
    assert_eq!(detector_error(500).as_deref(), Some("Similarity service returned error 500 Internal Server Error: body"));
    assert_eq!(detector_error(599).as_deref(), Some("Similarity service returned error 599 <unknown status code>: body"));
    assert_eq!(detector_error(100).as_deref(), Some("Similarity service returned error 100 Continue: body"));
}

#[test]
fn semantic_detector_replies() {
    let d = Detection { match_found: true, score: 87 };
    match semantic_detector_outcome(None, None) {
        Err(m) => assert_eq!(m, "Failed to send request to similarity service"),
        Ok(_) => panic!(),
    }
    match semantic_detector_outcome(reply(503, Some("busy")), Some(Detection { match_found: true, score: 1 })) {
        Err(m) => assert_eq!(m, "Similarity service returned error 503 Service Unavailable: busy"),
        Ok(_) => panic!(),
    }
    match semantic_detector_outcome(reply(500, None), None) {
        Err(m) => assert_eq!(m, "Similarity service returned error 500 Internal Server Error: Unknown error"),
        Ok(_) => panic!(),
    }
    match semantic_detector_outcome(reply(200, Some("{}")), None) {
        Err(m) => assert_eq!(m, "Failed to parse similarity service response"),
        Ok(_) => panic!(),
    }
    match semantic_detector_outcome(reply(200, Some("{...}")), Some(d)) {
        Ok(r) => {
            assert!(r.match_found);
            assert_eq!(r.score, 87);
        }
        Err(_) => panic!(),
    }
}

#[test]
fn similarity_service_replies() {
    let d = Detection { match_found: false, score: 12 };
    match similarity_service_outcome(None, None, None) {
        Err(m) => assert_eq!(m, "Failed to send request to similarity service"),
        Ok(_) => panic!(),
    }
    match similarity_service_outcome(reply(404, Some("nope")), None, None) {
        Err(m) => assert_eq!(m, "Similarity service error 404 Not Found: nope"),
        Ok(_) => panic!(),
    }
    match similarity_service_outcome(reply(200, None), None, None) {
        Err(m) => assert_eq!(m, "Failed to read similarity service response"),
        Ok(_) => panic!(),
    }
    match similarity_service_outcome(reply(200, Some("{\"error\":\"model\"}")), Some("model not loaded".to_string()), Some(d)) {
        Err(m) => assert_eq!(m, "Similarity service error: model not loaded"),
        Ok(_) => panic!(),
    }
    match similarity_service_outcome(reply(200, Some("[]")), None, None) {
        Err(m) => assert_eq!(m, "Failed to parse similarity service JSON response"),
        Ok(_) => panic!(),
    }
    match similarity_service_outcome(reply(201, Some("{...}")), None, Some(d)) {
        Ok(r) => {
            assert!(!r.match_found);
            assert_eq!(r.score, 12);
        }
        Err(_) => panic!(),
    }
}

#[test]
fn status_error_messages() {
    assert_eq!(detector_status_error("418 I'm a teapot", &None), "Similarity service returned error 418 I'm a teapot: Unknown error");
    assert_eq!(service_status_error("502 Bad Gateway", &Some("down".to_string())), "Similarity service error 502 Bad Gateway: down");
}

#[test]
fn service_urls() {
    assert_eq!(semantic_detector_url(None), "http://127.0.0.1:8002/detect");
    assert_eq!(semantic_detector_url(Some("http://svc/detect".to_string())), "http://svc/detect");
    assert_eq!(similarity_service_url(None), "http://127.0.0.1:8002");
    assert_eq!(detect_endpoint("http://127.0.0.1:8002"), "http://127.0.0.1:8002/detect");
}

#[test]
fn concurrency_and_timeout_settings() {
    assert_eq!(max_concurrent_tasks(Some("4".to_string())), 4);
    assert_eq!(max_concurrent_tasks(Some("+8".to_string())), 8);
    assert!(max_concurrent_tasks(Some("four".to_string())) >= 1);
    assert!(max_concurrent_tasks(None) >= 1);
    assert_eq!(max_concurrent_tasks(None), max_concurrent_tasks(Some("x".to_string())));
    assert_eq!(task_timeout_seconds(None), 30);
    assert_eq!(task_timeout_seconds(Some("45".to_string())), 45);
    assert_eq!(task_timeout_seconds(Some("-1".to_string())), 30);
    assert_eq!(task_timeout_seconds(Some("".to_string())), 30);
}

#[test]
fn detection_request_body() {
    let p = dejavu_similarity_api::detection::detection_payload("program words", "ad words");
    assert_eq!(p.program_text, "program words");
    assert_eq!(p.ad_text, "ad words");
}
