use dejavu_similarity_api::errors::AppError;

#[test]
fn error_answers() {
    let cases = [
        (AppError::NotFound("m".to_string()), 404, "Not Found", "Not found: m"),
        (AppError::Conflict("m".to_string()), 409, "Conflict", "Conflict: m"),
        (AppError::BadRequest("m".to_string()), 400, "Bad Request", "Bad request: m"),
        (AppError::InternalError("m".to_string()), 500, "Internal Server Error", "Internal error: m"),
        (AppError::ValidationError("m".to_string()), 400, "Validation Error", "Validation error: m"),
        (AppError::Unauthorized("m".to_string()), 401, "Unauthorized", "Unauthorized: m"),
    ];
    for (e, status, kind, text) in cases {
        assert_eq!(e.status_code(), status);
        assert_eq!(e.error_type(), kind);
        assert_eq!(e.to_display_string(), text);
        let body = e.into_response();
        assert_eq!(body.status, status);
        assert_eq!(body.message, "m");
        assert_eq!(body.error, kind);
    }
}
