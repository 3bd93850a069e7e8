use api_gateway::error::AppError;

fn all_errors() -> Vec<(AppError, u16, &'static str, &'static str, &'static str)> {
    vec![
        (AppError::AuthError("m".into()), 401, "AUTH_ERROR", "m", "Authentication failed: m"),
        (AppError::Unauthorized("m".into()), 401, "UNAUTHORIZED", "m", "Unauthorized: m"),
        (AppError::Forbidden("m".into()), 403, "FORBIDDEN", "m", "Forbidden: m"),
        (AppError::NotFound("m".into()), 404, "NOT_FOUND", "m", "Not found: m"),
        (AppError::BadRequest("m".into()), 400, "BAD_REQUEST", "m", "Bad request: m"),
        (
            AppError::RateLimitExceeded,
            429,
            "RATE_LIMIT_EXCEEDED",
            "Too many requests, please try again later",
            "Rate limit exceeded",
        ),
        (
            AppError::ServiceUnavailable("m".into()),
            503,
            "SERVICE_UNAVAILABLE",
            "m",
            "Service unavailable: m",
        ),
        (AppError::ProxyError("m".into()), 502, "PROXY_ERROR", "m", "Proxy error: m"),
    ]
}

#[test]
fn every_error_has_its_status_name_and_message() {
    for (error, status, name, message, description) in all_errors() {
        assert_eq!(error.status_code(), status);
        assert_eq!(error.error_type(), name);
        assert_eq!(error.describe(), description);
        let (reply_status, body) = error.into_response(false);
        assert_eq!(reply_status, status);
        assert_eq!(body.error, name);
        assert_eq!(body.message, message);
        assert_eq!(body.details, None);
    }
}

#[test]
fn internal_errors_are_hidden_unless_exposed() {
    let (status, body) = AppError::Internal("disk full".into()).into_response(false);
    assert_eq!(status, 500);
    assert_eq!(body.error, "INTERNAL_ERROR");
    assert_eq!(body.message, "An internal error occurred");
    assert_eq!(body.details, None);

    let (status, body) = AppError::Internal("disk full".into()).into_response(true);
    assert_eq!(status, 500);
    assert_eq!(body.error, "INTERNAL_ERROR");
    assert_eq!(body.message, "disk full");

    assert_eq!(AppError::Internal("disk full".into()).describe(), "Internal error: disk full");
}

#[test]
fn other_messages_do_not_depend_on_exposure() {
    let (_, hidden) = AppError::NotFound("no such route".into()).into_response(false);
    let (_, shown) = AppError::NotFound("no such route".into()).into_response(true);
    assert_eq!(hidden.message, "no such route");
    assert_eq!(shown.message, "no such route");
}

#[test]
fn upstream_timeouts_make_the_service_unavailable() {
    let error = AppError::from_upstream_failure(true, false, "operation timed out".into());
    assert!(matches!(&error, AppError::ServiceUnavailable(m) if m == "Upstream service timeout"));
    // A timeout while connecting is a timeout first.
    let error = AppError::from_upstream_failure(true, true, "operation timed out".into());
    assert!(matches!(&error, AppError::ServiceUnavailable(m) if m == "Upstream service timeout"));
}

#[test]
fn upstream_connect_failures_make_the_service_unavailable() {
    let error = AppError::from_upstream_failure(false, true, "connection refused".into());
    assert!(matches!(
        &error,
        AppError::ServiceUnavailable(m) if m == "Unable to connect to upstream service"
    ));
    assert_eq!(error.status_code(), 503);
}

#[test]
fn other_upstream_failures_are_proxy_errors() {
    let error = AppError::from_upstream_failure(false, false, "body too large".into());
    assert!(matches!(&error, AppError::ProxyError(m) if m == "body too large"));
    assert_eq!(error.status_code(), 502);
}

#[test]
fn token_failures_are_authentication_errors() {
    let error = AppError::from_token_failure("ExpiredSignature".into());
    assert!(matches!(&error, AppError::AuthError(m) if m == "ExpiredSignature"));
    assert_eq!(error.status_code(), 401);
    assert_eq!(error.describe(), "Authentication failed: ExpiredSignature");
}
