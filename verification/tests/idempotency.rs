use sdkwork_web::error::WebFrameworkErrorKind;
use sdkwork_web::hashing::hash_key_material;
use sdkwork_web::idempotency::{
    idempotency_fingerprint, idempotency_key_material, idempotency_replay_parts,
    parse_content_length, resolve_idempotency_fingerprint, IdempotencyHeaders,
    IdempotencyResponseRecord,
};

fn no_headers() -> IdempotencyHeaders {
    IdempotencyHeaders {
        idempotency_fingerprint: None,
        content_sha256: None,
        content_length: None,
        transfer_encoding: None,
    }
}

#[test]
fn fingerprint_changes_with_content_length() {
    let a = idempotency_fingerprint("POST", "/app/v3/api/orders", Some(10), None);
    let b = idempotency_fingerprint("POST", "/app/v3/api/orders", Some(20), None);
    assert_ne!(a, b);
}

#[test]
fn requires_body_hash_when_payload_present() {
    let mut headers = no_headers();
    headers.content_length = Some("128".to_owned());
    let error = resolve_idempotency_fingerprint("POST", "/app/v3/api/orders", None, &headers, true)
        .expect_err("missing body hash");
    assert_eq!(WebFrameworkErrorKind::BadRequest, error.kind);
}

#[test]
fn explicit_body_hash_is_used() {
    let mut headers = no_headers();
    headers.content_sha256 = Some("abc123".to_owned());
    let fp = resolve_idempotency_fingerprint("POST", "/app/v3/api/orders", None, &headers, true)
        .expect("fingerprint");
    assert!(fp.len() >= 16);
}

#[test]
fn requires_body_hash_for_chunked_transfer_encoding() {
    let mut headers = no_headers();
    headers.transfer_encoding = Some("chunked".to_owned());
    let error = resolve_idempotency_fingerprint("POST", "/app/v3/api/orders", None, &headers, true)
        .expect_err("missing body hash");
    assert_eq!(WebFrameworkErrorKind::BadRequest, error.kind);
}

// ---- further cases ----

#[test]
fn key_material_layout() {
    assert_eq!(
        "POST:/app/v3/api/orders:op=createOrder:len=128",
        idempotency_key_material("POST", "/app/v3/api/orders", Some(128), Some("createOrder"))
    );
    assert_eq!(
        "GET:/x:op=:len=0",
        idempotency_key_material("GET", "/x", None, None)
    );
}

#[test]
fn fingerprint_is_sha256_hex_of_material() {
    // SHA-256 of the empty string.
    assert_eq!(
        "e3b0c44298fc1c149afbf4c8996fb92427ae41e4649b934ca495991b7852b855",
        hash_key_material("")
    );
    let fp = idempotency_fingerprint("POST", "/app/v3/api/orders", Some(10), None);
    assert_eq!(64, fp.len());
    assert_eq!(hash_key_material("POST:/app/v3/api/orders:op=:len=10"), fp);
}

#[test]
fn explicit_hash_prefers_fingerprint_header() {
    let mut headers = no_headers();
    headers.idempotency_fingerprint = Some("fp-1".to_owned());
    headers.content_sha256 = Some("abc123".to_owned());
    headers.content_length = Some("500".to_owned());
    let fp = resolve_idempotency_fingerprint("POST", "/o", None, &headers, true).unwrap();
    assert_eq!(hash_key_material("POST:/o:body:fp-1"), fp);
}

#[test]
fn payload_allowed_without_requirement() {
    let mut headers = no_headers();
    headers.content_length = Some("128".to_owned());
    headers.transfer_encoding = Some("Chunked".to_owned());
    let fp = resolve_idempotency_fingerprint("POST", "/o", Some("op"), &headers, false).unwrap();
    assert_eq!(idempotency_fingerprint("POST", "/o", Some(128), Some("op")), fp);
}

#[test]
fn chunked_is_matched_ignoring_case() {
    let mut headers = no_headers();
    headers.transfer_encoding = Some("CHUNKED".to_owned());
    assert!(resolve_idempotency_fingerprint("POST", "/o", None, &headers, true).is_err());
    headers.transfer_encoding = Some("gzip".to_owned());
    assert!(resolve_idempotency_fingerprint("POST", "/o", None, &headers, true).is_ok());
}

#[test]
fn zero_or_unparsable_length_is_not_a_payload() {
    let mut headers = no_headers();
    headers.content_length = Some("0".to_owned());
    assert!(resolve_idempotency_fingerprint("POST", "/o", None, &headers, true).is_ok());
    headers.content_length = Some("abc".to_owned());
    let fp = resolve_idempotency_fingerprint("POST", "/o", None, &headers, true).unwrap();
    assert_eq!(idempotency_fingerprint("POST", "/o", None, None), fp);
}

#[test]
fn content_length_parses_like_u64_from_str() {
    assert_eq!(Some(128), parse_content_length(Some("128")));
    assert_eq!(Some(7), parse_content_length(Some("+7")));
    assert_eq!(Some(u64::MAX), parse_content_length(Some("18446744073709551615")));
    assert_eq!(None, parse_content_length(Some("18446744073709551616")));
    assert_eq!(None, parse_content_length(Some("")));
    assert_eq!(None, parse_content_length(Some("+")));
    assert_eq!(None, parse_content_length(Some(" 1")));
    assert_eq!(None, parse_content_length(Some("-1")));
    assert_eq!(None, parse_content_length(None));
}

#[test]
fn replay_parts_keep_cached_response() {
    let record = IdempotencyResponseRecord {
        status_code: 201,
        body: b"{\"id\":1}".to_vec(),
        content_type: Some("application/json".to_owned()),
    };
    let parts = idempotency_replay_parts(&record, Some("req-1")).unwrap();
    assert_eq!(201, parts.status_code);
    assert_eq!(record.body, parts.body);
    assert_eq!(Some("application/json".to_owned()), parts.content_type);
    assert_eq!(Some("req-1".to_owned()), parts.request_id);
}

#[test]
fn replay_parts_drop_invalid_headers() {
    let record = IdempotencyResponseRecord {
        status_code: 200,
        body: Vec::new(),
        content_type: Some("bad\nvalue".to_owned()),
    };
    let parts = idempotency_replay_parts(&record, Some("req\u{7f}")).unwrap();
    assert_eq!(None, parts.content_type);
    assert_eq!(None, parts.request_id);
}

#[test]
fn replay_parts_refuse_invalid_status() {
    let record = IdempotencyResponseRecord { status_code: 99, body: Vec::new(), content_type: None };
    let error = idempotency_replay_parts(&record, None).unwrap_err();
    assert_eq!(WebFrameworkErrorKind::DependencyUnavailable, error.kind);
    assert_eq!("cached idempotency response has invalid status", error.message);
    let record = IdempotencyResponseRecord { status_code: 1000, body: Vec::new(), content_type: None };
    assert!(idempotency_replay_parts(&record, None).is_err());
    let record = IdempotencyResponseRecord { status_code: 999, body: Vec::new(), content_type: None };
    assert!(idempotency_replay_parts(&record, None).is_ok());
}
