use sdkwork_web::contract::RateLimitTier;
use sdkwork_web::error::WebFrameworkErrorKind;
use sdkwork_web::rate_limit_policy::{
    policy_from_row, policy_lookup_step, rate_limit_policy_candidates, rate_limit_tier_key,
    PolicyLookupStep, RateLimitPolicyContext, RateLimitPolicyRow, ResolvedRateLimitPolicy,
};
use sdkwork_web::security_events::{security_event_kind_label, SecurityEventKind};
use sdkwork_web::store_cors_policy::{cors_policy_from_row, CorsPolicy, CorsPolicyRow};
use sdkwork_web::store_idempotency::{
    idempotency_begin_step, idempotency_completion_check, reservation_taken, BeginStep,
    IdempotencyRow,
};
use sdkwork_web::store_purge::{purge_due, DEFAULT_PURGE_INTERVAL_SECS};
use sdkwork_web::store_rate_limit::{rate_limit_decision, RateLimitBucket};
use sdkwork_web::store_tenant_runtime::{
    tenant_runtime_profile_from_row, TenantRuntimeProfile, TenantRuntimeProfileRow,
};

#[test]
fn tier_key_matches_manifest_tiers() {
    assert_eq!("auth_critical", rate_limit_tier_key(Some(RateLimitTier::AuthCritical)));
}

#[test]
fn context_tier_key_defaults_to_default() {
    let ctx = RateLimitPolicyContext {
        tenant_id: None,
        environment: "prod".to_owned(),
        rate_limit_tier: None,
        operation_id: None,
    };
    assert_eq!("default", ctx.tier_key());
}

// ---- further cases ----

#[test]
fn context_scopes() {
    let ctx = RateLimitPolicyContext {
        tenant_id: Some("100001".to_owned()),
        environment: "prod".to_owned(),
        rate_limit_tier: Some(RateLimitTier::OpenApiDefault),
        operation_id: None,
    };
    assert_eq!("100001", ctx.tenant_scope());
    assert_eq!("prod", ctx.environment_label());
    assert_eq!("open_api_default", ctx.tier_key());
    let ctx = RateLimitPolicyContext { tenant_id: None, ..ctx };
    assert_eq!("0", ctx.tenant_scope());
}

#[test]
fn policy_candidates_most_specific_first() {
    let c = rate_limit_policy_candidates("t1", "auth_critical");
    let expected = vec![
        ("t1".to_owned(), "auth_critical".to_owned()),
        ("t1".to_owned(), "default".to_owned()),
        ("0".to_owned(), "auth_critical".to_owned()),
        ("0".to_owned(), "default".to_owned()),
    ];
    assert_eq!(expected, c);
}

#[test]
fn policy_rows_are_normalized() {
    let row = RateLimitPolicyRow { max_requests: 50, window_secs: 0, enabled: 1 };
    assert_eq!(ResolvedRateLimitPolicy { max_requests: 50, window_secs: 1 }, policy_from_row(&row));
    let row = RateLimitPolicyRow { max_requests: 50, window_secs: 30, enabled: 0 };
    assert_eq!(ResolvedRateLimitPolicy { max_requests: 0, window_secs: 30 }, policy_from_row(&row));
    let row = RateLimitPolicyRow { max_requests: -5, window_secs: 30, enabled: 1 };
    assert_eq!(ResolvedRateLimitPolicy { max_requests: 0, window_secs: 30 }, policy_from_row(&row));
}

#[test]
fn lookup_steps_stop_at_first_row() {
    assert_eq!(PolicyLookupStep::LookUp(1), policy_lookup_step(0, None));
    assert_eq!(PolicyLookupStep::Resolved(None), policy_lookup_step(3, None));
    let row = RateLimitPolicyRow { max_requests: 10, window_secs: 60, enabled: 1 };
    assert_eq!(
        PolicyLookupStep::Resolved(Some(ResolvedRateLimitPolicy { max_requests: 10, window_secs: 60 })),
        policy_lookup_step(2, Some(row))
    );
}

#[test]
fn rate_limit_counts_within_window() {
    let first = rate_limit_decision(None, 1000, 60, 2).unwrap();
    assert_eq!(RateLimitBucket { request_count: 1, window_start: 1000 }, first);
    let second = rate_limit_decision(Some(first), 1010, 60, 2).unwrap();
    assert_eq!(RateLimitBucket { request_count: 2, window_start: 1000 }, second);
    let error = rate_limit_decision(Some(second), 1020, 60, 2).unwrap_err();
    assert_eq!(WebFrameworkErrorKind::RateLimitExceeded, error.kind);
    assert_eq!(Some(60), error.retry_after_seconds);
    let restarted = rate_limit_decision(Some(second), 1060, 60, 2).unwrap();
    assert_eq!(RateLimitBucket { request_count: 1, window_start: 1060 }, restarted);
}

#[test]
fn rate_limit_zero_refuses_and_window_is_at_least_one_second() {
    let error = rate_limit_decision(None, 5, 0, 0).unwrap_err();
    assert_eq!(Some(1), error.retry_after_seconds);
}

#[test]
fn idempotency_begin_decisions() {
    assert!(matches!(idempotency_begin_step(None, "fp").unwrap(), BeginStep::Reserve));
    let pending = IdempotencyRow {
        fingerprint: "fp".to_owned(),
        response_status: None,
        response_body: None,
        content_type: None,
    };
    let e = idempotency_begin_step(Some(pending.clone()), "fp").unwrap_err();
    assert_eq!("idempotency key is already in progress", e.message);
    let e = idempotency_begin_step(Some(pending), "other").unwrap_err();
    assert_eq!(WebFrameworkErrorKind::Conflict, e.kind);
    assert_eq!("idempotency key was already used with a different request fingerprint", e.message);
    let done = IdempotencyRow {
        fingerprint: "fp".to_owned(),
        response_status: Some(201),
        response_body: None,
        content_type: Some("application/json".to_owned()),
    };
    match idempotency_begin_step(Some(done), "fp").unwrap() {
        BeginStep::Replay(record) => {
            assert_eq!(201, record.status_code);
            assert!(record.body.is_empty());
            assert_eq!(Some("application/json".to_owned()), record.content_type);
        }
        BeginStep::Reserve => panic!("expected replay"),
    }
    assert!(reservation_taken(1));
    assert!(!reservation_taken(0));
}

#[test]
fn idempotency_completion_decisions() {
    let e = idempotency_completion_check(None, "fp").unwrap_err();
    assert_eq!(WebFrameworkErrorKind::BadRequest, e.kind);
    let row = IdempotencyRow {
        fingerprint: "fp".to_owned(),
        response_status: Some(200),
        response_body: Some(Vec::new()),
        content_type: None,
    };
    assert!(idempotency_completion_check(Some(row.clone()), "fp").is_ok());
    let e = idempotency_completion_check(Some(row), "x").unwrap_err();
    assert_eq!(WebFrameworkErrorKind::Conflict, e.kind);
}

#[test]
fn purge_runs_once_per_interval() {
    assert!(purge_due(100, 0, DEFAULT_PURGE_INTERVAL_SECS));
    assert!(!purge_due(100, 50, DEFAULT_PURGE_INTERVAL_SECS));
    assert!(purge_due(110, 50, DEFAULT_PURGE_INTERVAL_SECS));
    assert!(purge_due(i64::MAX, i64::MIN, DEFAULT_PURGE_INTERVAL_SECS));
}

#[test]
fn cors_row_decodes_origins() {
    let defaults = CorsPolicy {
        allow_all_origins: false,
        allowed_origins: Vec::new(),
        allowed_methods: vec!["GET".to_owned()],
        allowed_headers: vec!["content-type".to_owned()],
        allow_credentials: false,
    };
    let row = CorsPolicyRow {
        allow_all_origins: 0,
        allowed_origins: "[\"https://a.example\",\"https://b.example\"]".to_owned(),
        allow_credentials: 2,
    };
    let policy = cors_policy_from_row(&row, &defaults).unwrap();
    assert_eq!(vec!["https://a.example".to_owned(), "https://b.example".to_owned()], policy.allowed_origins);
    assert!(policy.allow_credentials);
    assert!(!policy.allow_all_origins);
    assert_eq!(defaults.allowed_methods, policy.allowed_methods);
    let bad = CorsPolicyRow { allowed_origins: "not json".to_owned(), ..row };
    let e = cors_policy_from_row(&bad, &defaults).unwrap_err();
    assert_eq!(WebFrameworkErrorKind::DependencyUnavailable, e.kind);
    assert!(e.message.starts_with("sqlx cors policy decode error: "));
}

#[test]
fn tenant_runtime_rows_are_normalized() {
    let row = TenantRuntimeProfileRow {
        rate_limit_enabled: Some(0),
        max_content_length: Some(-4),
        max_concurrent_requests: Some(5_000_000_000),
    };
    assert_eq!(
        TenantRuntimeProfile {
            rate_limit_enabled: Some(false),
            max_content_length: Some(0),
            max_concurrent_requests: None,
        },
        tenant_runtime_profile_from_row(&row)
    );
    let row = TenantRuntimeProfileRow {
        rate_limit_enabled: None,
        max_content_length: Some(1024),
        max_concurrent_requests: Some(8),
    };
    assert_eq!(
        TenantRuntimeProfile {
            rate_limit_enabled: None,
            max_content_length: Some(1024),
            max_concurrent_requests: Some(8),
        },
        tenant_runtime_profile_from_row(&row)
    );
}

#[test]
fn security_event_labels() {
    assert_eq!("cors_denied", security_event_kind_label(&SecurityEventKind::CorsDenied));
    assert_eq!(
        "tenant_isolation_denied",
        security_event_kind_label(&SecurityEventKind::TenantIsolationDenied)
    );
}

#[test]
fn security_event_labels_are_distinct() {
    let mut labels: Vec<&str> = [
        SecurityEventKind::CorsDenied,
        SecurityEventKind::RateLimitExceeded,
        SecurityEventKind::AuthenticationFailed,
        SecurityEventKind::AuthorizationDenied,
        SecurityEventKind::TenantIsolationDenied,
    ]
    .iter()
    .map(security_event_kind_label)
    .collect();
    labels.sort();
    labels.dedup();
    assert_eq!(5, labels.len());
}

#[test]
fn completed_response_replays_as_recorded() {
    let row = IdempotencyRow {
        fingerprint: "fp".to_owned(),
        response_status: Some(i64::from(409u16)),
        response_body: Some(b"dup".to_vec()),
        content_type: None,
    };
    match idempotency_begin_step(Some(row), "fp").unwrap() {
        BeginStep::Replay(record) => {
            assert_eq!(409, record.status_code);
            assert_eq!(b"dup".to_vec(), record.body);
            assert_eq!(None, record.content_type);
        }
        BeginStep::Reserve => panic!("expected replay"),
    }
}

#[test]
fn oversized_policy_limit_narrows_like_as_u32() {
    let row = RateLimitPolicyRow { max_requests: 4_294_967_296 + 7, window_secs: 60, enabled: 1 };
    assert_eq!(ResolvedRateLimitPolicy { max_requests: 7, window_secs: 60 }, policy_from_row(&row));
}

#[test]
fn window_admits_exactly_the_first_max_requests() {
    let mut bucket: Option<RateLimitBucket> = None;
    let mut answers = Vec::new();
    for t in 1000..1010 {
        match rate_limit_decision(bucket, t, 60, 3) {
            Ok(next) => {
                bucket = Some(next);
                answers.push(true);
            }
            Err(_) => answers.push(false),
        }
        assert!(bucket.unwrap().request_count <= 3);
    }
    assert_eq!(vec![true, true, true, false, false, false, false, false, false, false], answers);
}

#[test]
fn begin_complete_begin_replays() {
    let reserved = sdkwork_web::store_idempotency::reservation_row("fp");
    assert!(reserved.response_status.is_none());
    assert!(idempotency_begin_step(Some(reserved), "fp").is_err());
    let record = sdkwork_web::idempotency::IdempotencyResponseRecord {
        status_code: 201,
        body: b"ok".to_vec(),
        content_type: Some("text/plain".to_owned()),
    };
    let completed = sdkwork_web::store_idempotency::completion_row("fp", &record);
    assert_eq!(Some(201), completed.response_status);
    match idempotency_begin_step(Some(completed), "fp").unwrap() {
        BeginStep::Replay(replayed) => assert_eq!(record, replayed),
        BeginStep::Reserve => panic!("expected replay"),
    }
}
