//! The error taxonomy: the status-code table and the rate-limit body.

use chatex_sdk_rust::Error;

#[test]
fn is_error_code() {
    let true_status_codes: [u16; 2] = [200, 201];
    let false_status_codes: [u16; 8] = [400, 401, 403, 404, 422, 429, 203, 207];
    true_status_codes.iter().for_each(|value| {
        let result = Error::is_error_code(*value);
        assert!(!result, "Expected this status code is not error code")
    });
    false_status_codes.iter().for_each(|value| {
        let result = Error::is_error_code(*value);
        assert!(result, "Expected this status code is error code")
    });
}

#[test]
fn to_error() {
    let empty_body = "{}";
    let error = Error::to_error(400, empty_body.as_bytes());
    match error {
        Error::BadRequest => assert!(true),
        _ => assert!(false, "Failed to get error code from empty enum!"),
    }
    let error = Error::to_error(403, empty_body.as_bytes());
    match error {
        Error::PermissionDeniedError => assert!(true),
        _ => assert!(false, "Failed to get error code from empty enum!"),
    }
    let error = Error::to_error(429, r#"{ "retryAfter": 2020 }"#.as_bytes());
    match error {
        Error::RateLimitedError { retry_after } => {
            assert_eq!(retry_after, 2020);
        }
        _ => assert!(false, "Failed to get error code from empty enum!"),
    }
}

#[test]
fn classification_covers_every_variant() {
    let body = b"irrelevant";
    assert_eq!(Error::to_error(400, body), Error::BadRequest);
    assert_eq!(Error::to_error(401, body), Error::Unauthorized);
    assert_eq!(Error::to_error(403, body), Error::PermissionDeniedError);
    assert_eq!(Error::to_error(404, body), Error::NotFoundError);
    assert_eq!(Error::to_error(422, body), Error::UnprocessableEntityError);
    assert_eq!(Error::to_error(500, body), Error::InternalServerError);
    assert_eq!(Error::to_error(503, body), Error::InternalServerError);
    assert_eq!(Error::to_error(302, body), Error::InternalServerError);
}

#[test]
fn error_messages() {
    assert_eq!(
        Error::InternalServerError.message(),
        "Internal Server Error"
    );
    assert_eq!(Error::NotFoundError.message(), "Not Found Error");
    assert_eq!(
        Error::PermissionDeniedError.message(),
        "Permission Denied Error"
    );
    assert_eq!(
        Error::RateLimitedError { retry_after: 2020 }.message(),
        "Rate Limited Error (retry after 2020 seconds)"
    );
    assert_eq!(
        Error::RateLimitedError { retry_after: -1 }.message(),
        "Rate Limited Error (retry after -1 seconds)"
    );
    assert_eq!(
        Error::UnprocessableEntityError.message(),
        "Unprocessable Entity Error"
    );
    assert_eq!(Error::ValidationError.message(), "Validation Error");
    assert_eq!(Error::BadRequest.message(), "Bad Request");
    assert_eq!(Error::Unauthorized.message(), "Unauthorized. Invalid token.");
}

#[test]
fn rate_limit_body_parsing() {
    // A parsable body carries its delay through.
    assert_eq!(
        Error::to_error(429, br#"{"retryAfter": 0}"#),
        Error::RateLimitedError { retry_after: 0 }
    );
    assert_eq!(
        Error::to_error(429, br#"{"retryAfter": -3}"#),
        Error::RateLimitedError { retry_after: -3 }
    );
    // A body without the field, or that is no JSON at all, degrades to an
    // internal error.
    assert_eq!(Error::to_error(429, b"{}"), Error::InternalServerError);
    assert_eq!(Error::to_error(429, b"not json"), Error::InternalServerError);
    assert_eq!(
        Error::to_error(429, br#"{"retryAfter": "soon"}"#),
        Error::InternalServerError
    );
    assert_eq!(
        Error::to_error(429, br#"{"retryAfter": 1.5}"#),
        Error::InternalServerError
    );
}
