//! Framework errors: a kind, a message, and an optional `Retry-After` delay.

use vstd::prelude::*;

verus! {

#[derive(Clone, Copy, Debug, PartialEq, Eq, Structural)]
pub enum WebFrameworkErrorKind {
    MissingCredentials,
    InvalidCredentials,
    Forbidden,
    BadRequest,
    Conflict,
    PayloadTooLarge,
    RateLimitExceeded,
    DependencyUnavailable,
    RequestTimeout,
    MethodNotAllowed,
    NotFound,
    NotImplemented,
    InternalServerError,
    ContextNotInjected,
    WebSocketRejected,
}

#[derive(Clone, Debug)]
pub struct WebFrameworkError {
    pub kind: WebFrameworkErrorKind,
    pub message: String,
    pub retry_after_seconds: Option<u64>,
}

/// The plain value of an error: its kind, its message and its retry delay.
pub struct WebFrameworkErrorView {
    pub kind: WebFrameworkErrorKind,
    pub message: Seq<char>,
    pub retry_after_seconds: Option<u64>,
}

impl View for WebFrameworkError {
    type V = WebFrameworkErrorView;

    open spec fn view(&self) -> WebFrameworkErrorView {
        WebFrameworkErrorView {
            kind: self.kind,
            message: self.message@,
            retry_after_seconds: self.retry_after_seconds,
        }
    }
}

/// An error of the given kind and message, without a retry delay.
pub open spec fn error_view(kind: WebFrameworkErrorKind, message: Seq<char>) -> WebFrameworkErrorView {
    WebFrameworkErrorView { kind, message, retry_after_seconds: None }
}

impl WebFrameworkError {
    pub fn new(kind: WebFrameworkErrorKind, message: &str) -> (e: Self)
        ensures
            e@ == error_view(kind, message@),
    {
        WebFrameworkError { kind, message: message.to_owned(), retry_after_seconds: None }
    }

    pub fn forbidden(message: &str) -> (e: Self)
        ensures
            e@ == error_view(WebFrameworkErrorKind::Forbidden, message@),
    {
        Self::new(WebFrameworkErrorKind::Forbidden, message)
    }

    pub fn bad_request(message: &str) -> (e: Self)
        ensures
            e@ == error_view(WebFrameworkErrorKind::BadRequest, message@),
    {
        Self::new(WebFrameworkErrorKind::BadRequest, message)
    }

    pub fn conflict(message: &str) -> (e: Self)
        ensures
            e@ == error_view(WebFrameworkErrorKind::Conflict, message@),
    {
        Self::new(WebFrameworkErrorKind::Conflict, message)
    }

    pub fn dependency_unavailable(message: &str) -> (e: Self)
        ensures
            e@ == error_view(WebFrameworkErrorKind::DependencyUnavailable, message@),
    {
        Self::new(WebFrameworkErrorKind::DependencyUnavailable, message)
    }

    pub fn internal_server_error(message: &str) -> (e: Self)
        ensures
            e@ == error_view(WebFrameworkErrorKind::InternalServerError, message@),
    {
        Self::new(WebFrameworkErrorKind::InternalServerError, message)
    }

    pub fn context_not_injected(message: &str) -> (e: Self)
        ensures
            e@ == error_view(WebFrameworkErrorKind::ContextNotInjected, message@),
    {
        Self::new(WebFrameworkErrorKind::ContextNotInjected, message)
    }

    /// A rate-limit rejection that tells the client when to retry.
    pub fn rate_limit_exceeded(message: &str, retry_after_seconds: u64) -> (e: Self)
        ensures
            e@ == (WebFrameworkErrorView {
                kind: WebFrameworkErrorKind::RateLimitExceeded,
                message: message@,
                retry_after_seconds: Some(retry_after_seconds),
            }),
    {
        WebFrameworkError {
            kind: WebFrameworkErrorKind::RateLimitExceeded,
            message: message.to_owned(),
            retry_after_seconds: Some(retry_after_seconds),
        }
    }
}

} // verus!
