//! The errors that the gateway answers with, and the form in which it
//! reports them to a client.

use vstd::prelude::*;

verus! {

/// An error that ends a request.
#[derive(Debug)]
pub enum AppError {
    AuthError(String),
    Unauthorized(String),
    Forbidden(String),
    NotFound(String),
    BadRequest(String),
    RateLimitExceeded,
    ServiceUnavailable(String),
    ProxyError(String),
    Internal(String),
}

/// The body of an error reply.
#[derive(Debug, Clone)]
pub struct ErrorResponse {
    pub error: String,
    pub message: String,
    pub details: Option<String>,
}

/// The body of an error reply as plain values.
pub ghost struct ErrorView {
    pub error: Seq<char>,
    pub message: Seq<char>,
    pub details: Option<Seq<char>>,
}

impl View for ErrorResponse {
    type V = ErrorView;

    open spec fn view(&self) -> ErrorView {
        ErrorView {
            error: self.error@,
            message: self.message@,
            details: match self.details {
                Some(details) => Some(details@),
                None => None,
            },
        }
    }
}

/// An error as plain values.
pub ghost enum ErrorModel {
    AuthError(Seq<char>),
    Unauthorized(Seq<char>),
    Forbidden(Seq<char>),
    NotFound(Seq<char>),
    BadRequest(Seq<char>),
    RateLimitExceeded,
    ServiceUnavailable(Seq<char>),
    ProxyError(Seq<char>),
    Internal(Seq<char>),
}

impl View for AppError {
    type V = ErrorModel;

    open spec fn view(&self) -> ErrorModel {
        match self {
            AppError::AuthError(msg) => ErrorModel::AuthError(msg@),
            AppError::Unauthorized(msg) => ErrorModel::Unauthorized(msg@),
            AppError::Forbidden(msg) => ErrorModel::Forbidden(msg@),
            AppError::NotFound(msg) => ErrorModel::NotFound(msg@),
            AppError::BadRequest(msg) => ErrorModel::BadRequest(msg@),
            AppError::RateLimitExceeded => ErrorModel::RateLimitExceeded,
            AppError::ServiceUnavailable(msg) => ErrorModel::ServiceUnavailable(msg@),
            AppError::ProxyError(msg) => ErrorModel::ProxyError(msg@),
            AppError::Internal(msg) => ErrorModel::Internal(msg@),
        }
    }
}

/// The error that a failed call to an upstream service amounts to: the
/// service is unavailable where the call timed out or found nobody to
/// connect to; otherwise the proxy has failed, and the client's own
/// account says how.
pub open spec fn upstream_failure(
    timed_out: bool,
    connect_failed: bool,
    detail: Seq<char>,
) -> ErrorModel {
    if timed_out {
        ErrorModel::ServiceUnavailable("Upstream service timeout"@)
    } else if connect_failed {
        ErrorModel::ServiceUnavailable("Unable to connect to upstream service"@)
    } else {
        ErrorModel::ProxyError(detail)
    }
}

impl AppError {
    /// The HTTP status that the error is answered with.
    pub open spec fn status(self) -> u16 {
        match self {
            AppError::AuthError(_) => 401,
            AppError::Unauthorized(_) => 401,
            AppError::Forbidden(_) => 403,
            AppError::NotFound(_) => 404,
            AppError::BadRequest(_) => 400,
            AppError::RateLimitExceeded => 429,
            AppError::ServiceUnavailable(_) => 503,
            AppError::ProxyError(_) => 502,
            AppError::Internal(_) => 500,
        }
    }

    /// The machine-readable name of the error.
    pub open spec fn kind(self) -> Seq<char> {
        match self {
            AppError::AuthError(_) => "AUTH_ERROR"@,
            AppError::Unauthorized(_) => "UNAUTHORIZED"@,
            AppError::Forbidden(_) => "FORBIDDEN"@,
            AppError::NotFound(_) => "NOT_FOUND"@,
            AppError::BadRequest(_) => "BAD_REQUEST"@,
            AppError::RateLimitExceeded => "RATE_LIMIT_EXCEEDED"@,
            AppError::ServiceUnavailable(_) => "SERVICE_UNAVAILABLE"@,
            AppError::ProxyError(_) => "PROXY_ERROR"@,
            AppError::Internal(_) => "INTERNAL_ERROR"@,
        }
    }

    /// The message that a client is shown. What went wrong inside the
    /// gateway is shown only where `expose_internal` allows it.
    pub open spec fn public_message(self, expose_internal: bool) -> Seq<char> {
        match self {
            AppError::AuthError(msg) => msg@,
            AppError::Unauthorized(msg) => msg@,
            AppError::Forbidden(msg) => msg@,
            AppError::NotFound(msg) => msg@,
            AppError::BadRequest(msg) => msg@,
            AppError::RateLimitExceeded => "Too many requests, please try again later"@,
            AppError::ServiceUnavailable(msg) => msg@,
            AppError::ProxyError(msg) => msg@,
            AppError::Internal(msg) => if expose_internal {
                msg@
            } else {
                "An internal error occurred"@
            },
        }
    }

    /// The error in a sentence, for logs.
    pub open spec fn description(self) -> Seq<char> {
        match self {
            AppError::AuthError(msg) => "Authentication failed: "@ + msg@,
            AppError::Unauthorized(msg) => "Unauthorized: "@ + msg@,
            AppError::Forbidden(msg) => "Forbidden: "@ + msg@,
            AppError::NotFound(msg) => "Not found: "@ + msg@,
            AppError::BadRequest(msg) => "Bad request: "@ + msg@,
            AppError::RateLimitExceeded => "Rate limit exceeded"@,
            AppError::ServiceUnavailable(msg) => "Service unavailable: "@ + msg@,
            AppError::ProxyError(msg) => "Proxy error: "@ + msg@,
            AppError::Internal(msg) => "Internal error: "@ + msg@,
        }
    }

    /// The reply body for the error.
    pub open spec fn body(self, expose_internal: bool) -> ErrorView {
        ErrorView {
            error: self.kind(),
            message: self.public_message(expose_internal),
            details: None,
        }
    }

    pub fn status_code(&self) -> (code: u16)
        ensures
            code == self.status(),
    {
        match self {
            AppError::AuthError(_) => 401,
            AppError::Unauthorized(_) => 401,
            AppError::Forbidden(_) => 403,
            AppError::NotFound(_) => 404,
            AppError::BadRequest(_) => 400,
            AppError::RateLimitExceeded => 429,
            AppError::ServiceUnavailable(_) => 503,
            AppError::ProxyError(_) => 502,
            AppError::Internal(_) => 500,
        }
    }

    pub fn error_type(&self) -> (name: &'static str)
        ensures
            name@ == self.kind(),
    {
        match self {
            AppError::AuthError(_) => "AUTH_ERROR",
            AppError::Unauthorized(_) => "UNAUTHORIZED",
            AppError::Forbidden(_) => "FORBIDDEN",
            AppError::NotFound(_) => "NOT_FOUND",
            AppError::BadRequest(_) => "BAD_REQUEST",
            AppError::RateLimitExceeded => "RATE_LIMIT_EXCEEDED",
            AppError::ServiceUnavailable(_) => "SERVICE_UNAVAILABLE",
            AppError::ProxyError(_) => "PROXY_ERROR",
            AppError::Internal(_) => "INTERNAL_ERROR",
        }
    }

    /// The error in a sentence, for logs.
    pub fn describe(&self) -> (text: String)
        ensures
            text@ == self.description(),
    {
        match self {
            AppError::AuthError(msg) => "Authentication failed: ".to_owned().concat(msg.as_str()),
            AppError::Unauthorized(msg) => "Unauthorized: ".to_owned().concat(msg.as_str()),
            AppError::Forbidden(msg) => "Forbidden: ".to_owned().concat(msg.as_str()),
            AppError::NotFound(msg) => "Not found: ".to_owned().concat(msg.as_str()),
            AppError::BadRequest(msg) => "Bad request: ".to_owned().concat(msg.as_str()),
            AppError::RateLimitExceeded => "Rate limit exceeded".to_owned(),
            AppError::ServiceUnavailable(msg) => "Service unavailable: ".to_owned().concat(
                msg.as_str(),
            ),
            AppError::ProxyError(msg) => "Proxy error: ".to_owned().concat(msg.as_str()),
            AppError::Internal(msg) => "Internal error: ".to_owned().concat(msg.as_str()),
        }
    }

    /// The reply to a client: the HTTP status and the body.
    ///
    /// With `expose_internal` the message of an internal error is
    /// passed on; without it, a fixed sentence stands in its place.
    pub fn into_response(self, expose_internal: bool) -> (reply: (u16, ErrorResponse))
        ensures
            reply.0 == self.status(),
            reply.1@ == self.body(expose_internal),
    {
        let status = self.status_code();
        let error = self.error_type().to_owned();
        let message = match self {
            AppError::AuthError(msg) => msg,
            AppError::Unauthorized(msg) => msg,
            AppError::Forbidden(msg) => msg,
            AppError::NotFound(msg) => msg,
            AppError::BadRequest(msg) => msg,
            AppError::RateLimitExceeded => "Too many requests, please try again later".to_owned(),
            AppError::ServiceUnavailable(msg) => msg,
            AppError::ProxyError(msg) => msg,
            AppError::Internal(msg) => {
                if expose_internal {
                    msg
                } else {
                    "An internal error occurred".to_owned()
                }
            },
        };
        (status, ErrorResponse { error, message, details: None })
    }

    /// The error for a failed call to an upstream service.
    ///
    /// `timed_out` and `connect_failed` say how the call failed,
    /// `detail` is the client's own account of it.
    pub fn from_upstream_failure(timed_out: bool, connect_failed: bool, detail: String) -> (error:
        AppError)
        ensures
            error@ == upstream_failure(timed_out, connect_failed, detail@),
    {
        if timed_out {
            AppError::ServiceUnavailable("Upstream service timeout".to_owned())
        } else if connect_failed {
            AppError::ServiceUnavailable("Unable to connect to upstream service".to_owned())
        } else {
            AppError::ProxyError(detail)
        }
    }

    /// The error for a token that could not be accepted: an
    /// authentication error with the validator's account of it.
    pub fn from_token_failure(detail: String) -> (error: AppError)
        ensures
            error@ == ErrorModel::AuthError(detail@),
    {
        AppError::AuthError(detail)
    }
}

} // verus!
