use mmitm::error::AppError;

#[test]
fn status_codes_and_messages() {
    let cases = vec![
        (AppError::BadRequest("bad".to_string()), 400, "bad", "Invalid request: bad"),
        (AppError::GoogleApiError("quota".to_string()), 500, "quota", "Google API error: quota"),
        (AppError::ExternalApi("geo".to_string()), 500, "geo", "External API error: geo"),
        (AppError::Internal("boom".to_string()), 500, "Internal server error", "Internal server error: boom"),
        (AppError::Serialization("eof".to_string()), 400, "Invalid request format", "Serialization error: eof"),
        (AppError::HttpClient("dns".to_string()), 500, "External service error", "HTTP client error: dns"),
    ];
    for (e, status, public, description) in cases {
        assert_eq!(e.status_code(), status);
        assert_eq!(e.public_message(), public);
        assert_eq!(e.description(), description);
    }
}

#[test]
fn bad_request_constructor() {
    match AppError::bad_request("Session not found") {
        AppError::BadRequest(m) => assert_eq!(m, "Session not found"),
        other => panic!("unexpected {:?}", other),
    }
}
