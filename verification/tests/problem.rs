use sdkwork_web::error::{WebFrameworkError, WebFrameworkErrorKind};
use sdkwork_web::problem::{
    client_safe_problem_detail, problem_trace_id, problem_type_uri, redact_path_template, ProblemCorrelation,
};

#[test]
fn redacts_numeric_path_segments() {
    assert_eq!(
        "/app/v3/api/users/{id}/orders/{id}",
        redact_path_template("/app/v3/api/users/42/orders/99")
    );
}

#[test]
fn redacts_uuid_like_segments_only_when_long() {
    assert_eq!(
        "/app/v3/api/sessions/{id}",
        redact_path_template("/app/v3/api/sessions/550e8400-e29b-41d4-a716-446655440000")
    );
    assert_eq!("/app/abc-123/x", redact_path_template("/app/abc-123/x"));
    assert_eq!("", redact_path_template(""));
    assert_eq!("/", redact_path_template("/"));
    assert_eq!("{id}//{id}/", redact_path_template("7//8/"));
    assert_eq!("/users/42a", redact_path_template("/users/42a"));
}

#[test]
fn internal_details_are_not_leaked() {
    let error = WebFrameworkError::internal_server_error("sqlx connection reset by peer");
    assert_eq!("An internal error occurred", client_safe_problem_detail(&error));
    let error = WebFrameworkError::dependency_unavailable("redis down");
    assert_eq!(
        "A required dependency is temporarily unavailable",
        client_safe_problem_detail(&error)
    );
    let error = WebFrameworkError::forbidden("denied");
    assert_eq!("denied", client_safe_problem_detail(&error));
}

#[test]
fn problem_type_uris_are_stable() {
    assert_eq!(
        "https://sdkwork.dev/problems/conflict",
        problem_type_uri(&WebFrameworkErrorKind::Conflict)
    );
    assert_eq!(
        "https://sdkwork.dev/problems/websocket-rejected",
        problem_type_uri(&WebFrameworkErrorKind::WebSocketRejected)
    );
}

#[test]
fn trace_id_prefers_explicit_trace() {
    let c = ProblemCorrelation::new(Some("req-trace"), Some("4bf92f3577b34da6a3ce929d0e0e4736"));
    assert_eq!(Some("4bf92f3577b34da6a3ce929d0e0e4736".to_owned()), c.resolved_trace_id());
    let c = ProblemCorrelation::new(Some("req-trace"), Some(""));
    assert_eq!(Some("req-trace".to_owned()), c.resolved_trace_id());
    let c: ProblemCorrelation = None.into();
    assert_eq!(None, c.resolved_trace_id());
    let c: ProblemCorrelation = Some("req-trace-1").into();
    assert_eq!(Some("req-trace-1".to_owned()), c.resolved_trace_id());
}

#[test]
fn problem_trace_id_falls_back_to_unknown() {
    assert_eq!("unknown", problem_trace_id(&ProblemCorrelation::new(None, None)));
    assert_eq!("req-1", problem_trace_id(&ProblemCorrelation::new(Some("req-1"), None)));
}

#[test]
fn redaction_is_idempotent_and_keeps_segments() {
    for path in [
        "/app/v3/api/users/42/orders/99",
        "/a/550e8400-e29b-41d4-a716-446655440000//7/",
        "",
        "plain",
    ] {
        let once = redact_path_template(path);
        assert_eq!(once, redact_path_template(&once));
        assert_eq!(path.split('/').count(), once.split('/').count());
    }
}

#[test]
fn every_kind_has_its_own_problem_type() {
    let kinds = [
        WebFrameworkErrorKind::MissingCredentials,
        WebFrameworkErrorKind::InvalidCredentials,
        WebFrameworkErrorKind::Forbidden,
        WebFrameworkErrorKind::BadRequest,
        WebFrameworkErrorKind::Conflict,
        WebFrameworkErrorKind::PayloadTooLarge,
        WebFrameworkErrorKind::RateLimitExceeded,
        WebFrameworkErrorKind::DependencyUnavailable,
        WebFrameworkErrorKind::RequestTimeout,
        WebFrameworkErrorKind::MethodNotAllowed,
        WebFrameworkErrorKind::NotFound,
        WebFrameworkErrorKind::NotImplemented,
        WebFrameworkErrorKind::InternalServerError,
        WebFrameworkErrorKind::ContextNotInjected,
        WebFrameworkErrorKind::WebSocketRejected,
    ];
    let mut uris: Vec<&str> = kinds.iter().map(problem_type_uri).collect();
    uris.sort();
    uris.dedup();
    assert_eq!(kinds.len(), uris.len());
    assert!(uris.iter().all(|u| u.starts_with("https://sdkwork.dev/problems/")));
}

#[test]
fn problem_parts_carry_headers() {
    let error = WebFrameworkError::rate_limit_exceeded("slow down", 120);
    let parts = sdkwork_web::problem::problem_parts(&error, &ProblemCorrelation::new(Some("req-9"), None));
    assert_eq!("https://sdkwork.dev/problems/rate-limit-exceeded", parts.type_uri);
    assert_eq!("slow down", parts.detail);
    assert_eq!("req-9", parts.trace_id);
    assert_eq!(Some("req-9".to_owned()), parts.trace_id_header);
    assert_eq!(Some("120".to_owned()), parts.retry_after_header);

    let error = WebFrameworkError::internal_server_error("sqlx connection reset by peer");
    let parts = sdkwork_web::problem::problem_parts(&error, &ProblemCorrelation::new(None, Some("bad\ntrace")));
    assert_eq!("An internal error occurred", parts.detail);
    assert_eq!("bad\ntrace", parts.trace_id);
    assert_eq!(None, parts.trace_id_header);
    assert_eq!(None, parts.retry_after_header);
}
