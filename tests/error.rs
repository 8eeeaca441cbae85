use rspotify::error::{parse_retry_after, ApiError, ClientError};

/// Decodes an error body in either of its shapes, bare or under `"error"`.
fn decode(body: &str) -> Option<ApiError> {
    let value: serde_json::Value = serde_json::from_str(body).ok()?;
    let fields = value.get("error").unwrap_or(&value);
    let status = u16::try_from(fields.get("status")?.as_u64()?).ok()?;
    let message = fields.get("message")?.as_str()?.to_owned();
    let reason = match fields.get("reason") {
        Some(r) => Some(r.as_str()?.to_owned()),
        None => None,
    };
    Some(ApiError::from_fields(status, message, reason))
}

#[test]
fn rate_limited_with_retry_after() {
    assert!(matches!(
        ClientError::from_response(429, Some("30"), None),
        ClientError::RateLimited(Some(30))
    ));
}

#[test]
fn rate_limited_without_retry_after() {
    assert!(matches!(
        ClientError::from_response(429, None, None),
        ClientError::RateLimited(None)
    ));
    assert!(matches!(
        ClientError::from_response(429, Some("Wed, 21 Oct 2015 07:28:00 GMT"), None),
        ClientError::RateLimited(None)
    ));
}

#[test]
fn not_found_with_error_body() {
    let body = decode(r#"{"error":{"status":404,"message":"not found"}}"#);
    assert!(body.is_some());
    let error = ClientError::from_response(404, None, body);
    assert!(matches!(
        error,
        ClientError::Api(ApiError::Regular { status: 404, ref message }) if message == "not found"
    ));
}

#[test]
fn not_found_with_unreadable_body() {
    let body = decode("<html>not found</html>");
    assert!(body.is_none());
    assert!(matches!(
        ClientError::from_response(404, None, body),
        ClientError::StatusCode(404)
    ));
}

#[test]
fn forbidden_with_player_error() {
    let body = decode(r#"{"status":403,"message":"Player command failed","reason":"PREMIUM_REQUIRED"}"#);
    let error = ClientError::from_response(403, None, body);
    assert!(matches!(
        error,
        ClientError::Api(ApiError::Player { status: 403, ref message, ref reason })
            if message == "Player command failed" && reason == "PREMIUM_REQUIRED"
    ));
}

#[test]
fn unauthorized_status() {
    assert!(matches!(ClientError::from_response(401, Some("5"), None), ClientError::Unauthorized));
}

#[test]
fn other_statuses_are_reported_by_number() {
    assert!(matches!(ClientError::from_response(500, None, None), ClientError::StatusCode(500)));
    assert!(matches!(ClientError::from_response(400, Some("3"), None), ClientError::StatusCode(400)));
    let body = ApiError::from_fields(502, String::from("bad gateway"), None);
    assert!(matches!(
        ClientError::from_response(502, None, Some(body)),
        ClientError::StatusCode(502)
    ));
}

#[test]
fn success_and_body_statuses() {
    assert!(ClientError::is_success(200));
    assert!(ClientError::is_success(204));
    assert!(ClientError::is_success(299));
    assert!(!ClientError::is_success(199));
    assert!(!ClientError::is_success(300));
    assert!(ClientError::reads_body(403));
    assert!(ClientError::reads_body(404));
    assert!(!ClientError::reads_body(401));
    assert!(!ClientError::reads_body(429));
}

#[test]
fn error_fields_choose_shape() {
    assert!(matches!(
        ApiError::from_fields(404, String::from("m"), None),
        ApiError::Regular { status: 404, .. }
    ));
    assert!(matches!(
        ApiError::from_fields(403, String::from("m"), Some(String::from("r"))),
        ApiError::Player { status: 403, ref reason, .. } if reason == "r"
    ));
}

#[test]
fn retry_after_values() {
    assert_eq!(parse_retry_after("30"), Some(30));
    assert_eq!(parse_retry_after("0"), Some(0));
    assert_eq!(parse_retry_after("+7"), Some(7));
    assert_eq!(parse_retry_after("007"), Some(7));
    assert_eq!(parse_retry_after(""), None);
    assert_eq!(parse_retry_after("+"), None);
    assert_eq!(parse_retry_after("-1"), None);
    assert_eq!(parse_retry_after(" 30"), None);
    assert_eq!(parse_retry_after("3a"), None);
    assert_eq!(parse_retry_after("1.5"), None);
}

#[test]
fn retry_after_at_the_limit() {
    let max = usize::MAX.to_string();
    assert_eq!(parse_retry_after(&max), Some(usize::MAX));
    let over = format!("{}0", usize::MAX);
    assert_eq!(parse_retry_after(&over), None);
    assert_eq!(parse_retry_after("18446744073709551616"), "18446744073709551616".parse::<usize>().ok());
}
