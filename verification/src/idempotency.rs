//! Idempotency fingerprinting and replay of cached responses.
//!
//! A fingerprint binds an idempotency key to the request it was first used
//! with: an explicit body hash header when the client sends one, otherwise
//! method, path, operation and payload size.

use vstd::prelude::*;
use vstd::string::StringExecFns;
use crate::error::{WebFrameworkError, WebFrameworkErrorKind, WebFrameworkErrorView, error_view};
use vstd::utf8::encode_utf8;
use crate::hashing::{hash_key_material, key_material_hash, sha256_of};
use crate::text::hex_lower;
use crate::text::{ascii_lower, lemma_decimal_injective, decimal, push_decimal, parse_u64, parsed_u64, eq_ignore_ascii_case, equals_ignoring_ascii_case};

verus! {

/// Cached HTTP response for idempotent command replay.
#[derive(Clone, Debug, PartialEq, Eq)]
pub struct IdempotencyResponseRecord {
    pub status_code: u16,
    pub body: Vec<u8>,
    pub content_type: Option<String>,
}

/// Result of reserving an idempotency key before handler execution.
#[derive(Clone, Debug, PartialEq, Eq)]
pub enum IdempotencyBeginOutcome {
    /// First request with this key — execute handler and cache the response.
    Leader,
    /// Prior completed request — replay cached response without running the handler.
    Replay(IdempotencyResponseRecord),
}

/// The request headers that fingerprinting reads, as text (`None` when the
/// header is absent or not visible ASCII).
#[derive(Clone, Debug)]
pub struct IdempotencyHeaders {
    /// `X-Idempotency-Fingerprint`
    pub idempotency_fingerprint: Option<String>,
    /// `X-Content-SHA256`
    pub content_sha256: Option<String>,
    /// `Content-Length`
    pub content_length: Option<String>,
    /// `Transfer-Encoding`
    pub transfer_encoding: Option<String>,
}

pub open spec fn text_or_empty(value: Option<&str>) -> Seq<char> {
    match value {
        Some(s) => s@,
        None => Seq::empty(),
    }
}

/// The key material of a request without an explicit body hash.
pub open spec fn fingerprint_material(
    method: Seq<char>,
    path: Seq<char>,
    content_length: Option<u64>,
    operation_id: Option<&str>,
) -> Seq<char> {
    let len: u64 = match content_length {
        Some(n) => n,
        None => 0,
    };
    method + ":"@ + path + ":op="@ + text_or_empty(operation_id) + ":len="@ + decimal(len as nat)
}

/// The key material of a request that names its body hash.
pub open spec fn explicit_body_material(method: Seq<char>, path: Seq<char>, body_hash: Seq<char>) -> Seq<
    char,
> {
    method + ":"@ + path + ":body:"@ + body_hash
}

/// `Content-Length` as `str::parse::<u64>` reads it.
pub open spec fn declared_content_length(value: Option<String>) -> Option<u64> {
    match value {
        Some(v) => parsed_u64(v@),
        None => None,
    }
}

/// The body hash the client supplied: the fingerprint header, else the
/// content digest header.
pub open spec fn explicit_body_hash(headers: IdempotencyHeaders) -> Option<Seq<char>> {
    match headers.idempotency_fingerprint {
        Some(f) => Some(f@),
        None => match headers.content_sha256 {
            Some(h) => Some(h@),
            None => None,
        },
    }
}

pub open spec fn chunked_transfer(headers: IdempotencyHeaders) -> bool {
    match headers.transfer_encoding {
        Some(te) => equals_ignoring_ascii_case(te@, "chunked"@),
        None => false,
    }
}

pub open spec fn missing_body_hash_message() -> Seq<char> {
    "requests with a body must include X-Content-SHA256 or X-Idempotency-Fingerprint for idempotent commands"@
}

/// What `resolve_idempotency_fingerprint` answers.
pub open spec fn resolved_fingerprint(
    method: Seq<char>,
    path: Seq<char>,
    operation_id: Option<&str>,
    headers: IdempotencyHeaders,
    require_body_hash_when_payload: bool,
) -> Result<Seq<char>, WebFrameworkErrorView> {
    match explicit_body_hash(headers) {
        Some(h) => Ok(key_material_hash(explicit_body_material(method, path, h))),
        None => {
            let len = declared_content_length(headers.content_length);
            let has_payload = (len matches Some(n) && n > 0) || chunked_transfer(headers);
            if require_body_hash_when_payload && has_payload {
                Err(error_view(WebFrameworkErrorKind::BadRequest, missing_body_hash_message()))
            } else {
                Ok(key_material_hash(fingerprint_material(method, path, len, operation_id)))
            }
        },
    }
}

/// Key material for method + path + operation + payload size metadata.
pub fn idempotency_key_material(
    method: &str,
    path: &str,
    content_length: Option<u64>,
    operation_id: Option<&str>,
) -> (material: String)
    ensures
        material@ == fingerprint_material(method@, path@, content_length, operation_id),
{
    let mut m = method.to_owned();
    m.append(":");
    m.append(path);
    m.append(":op=");
    match operation_id {
        Some(op) => m.append(op),
        None => {},
    }
    m.append(":len=");
    let len: u64 = match content_length {
        Some(n) => n,
        None => 0,
    };
    push_decimal(&mut m, len);
    m
}

/// Stable fingerprint for method + path + operation + payload size metadata.
pub fn idempotency_fingerprint(
    method: &str,
    path: &str,
    content_length: Option<u64>,
    operation_id: Option<&str>,
) -> (fingerprint: String)
    ensures
        fingerprint@ == key_material_hash(
            fingerprint_material(method@, path@, content_length, operation_id),
        ),
        fingerprint@.len() == 64,
{
    let material = idempotency_key_material(method, path, content_length, operation_id);
    hash_key_material(material.as_str())
}

/// `Content-Length` as a number; absent or unparsable values give `None`.
pub fn parse_content_length(value: Option<&str>) -> (r: Option<u64>)
    ensures
        r == match value {
            Some(v) => parsed_u64(v@),
            None => None::<u64>,
        },
{
    match value {
        Some(v) => parse_u64(v),
        None => None,
    }
}

fn option_str(value: &Option<String>) -> (r: Option<&str>)
    ensures
        match value {
            Some(s) => r matches Some(t) && t@ == s@,
            None => r is None,
        },
{
    match value {
        Some(s) => Some(s.as_str()),
        None => None,
    }
}

/// Resolves the idempotency fingerprint, preferring an explicit body hash
/// header; without one, a request that carries a payload is refused when
/// `require_body_hash_when_payload` is set.
pub fn resolve_idempotency_fingerprint(
    method: &str,
    path: &str,
    operation_id: Option<&str>,
    headers: &IdempotencyHeaders,
    require_body_hash_when_payload: bool,
) -> (r: Result<String, WebFrameworkError>)
    ensures
        match r {
            Ok(f) => resolved_fingerprint(
                method@,
                path@,
                operation_id,
                *headers,
                require_body_hash_when_payload,
            ) == Ok::<Seq<char>, WebFrameworkErrorView>(f@),
            Err(e) => resolved_fingerprint(
                method@,
                path@,
                operation_id,
                *headers,
                require_body_hash_when_payload,
            ) == Err::<Seq<char>, WebFrameworkErrorView>(e@),
        },
        r matches Ok(f) ==> f@.len() == 64,
{
    let explicit = match &headers.idempotency_fingerprint {
        Some(f) => Some(f.as_str()),
        None => option_str(&headers.content_sha256),
    };
    if let Some(body_hash) = explicit {
        let mut m = method.to_owned();
        m.append(":");
        m.append(path);
        m.append(":body:");
        m.append(body_hash);
        return Ok(hash_key_material(m.as_str()));
    }
    let content_length = parse_content_length(option_str(&headers.content_length));
    let has_chunked_body = match &headers.transfer_encoding {
        Some(te) => eq_ignore_ascii_case(te.as_str(), "chunked"),
        None => false,
    };
    let declared_payload = match content_length {
        Some(n) => n > 0,
        None => false,
    };
    if require_body_hash_when_payload && (declared_payload || has_chunked_body) {
        return Err(
            WebFrameworkError::bad_request(
                "requests with a body must include X-Content-SHA256 or X-Idempotency-Fingerprint for idempotent commands",
            ),
        );
    }
    Ok(idempotency_fingerprint(method, path, content_length, operation_id))
}

/// Requests that differ only in their declared payload size get different
/// key material, so their fingerprints are hashed from different texts.
pub proof fn lemma_material_distinguishes_content_length(
    method: Seq<char>,
    path: Seq<char>,
    a: u64,
    b: u64,
    operation_id: Option<&str>,
)
    requires
        a != b,
    ensures
        fingerprint_material(method, path, Some(a), operation_id) != fingerprint_material(
            method,
            path,
            Some(b),
            operation_id,
        ),
{
    let prefix = method + ":"@ + path + ":op="@ + text_or_empty(operation_id) + ":len="@;
    lemma_decimal_injective(a as nat, b as nat);
    assert(fingerprint_material(method, path, Some(a), operation_id) == prefix + decimal(a as nat));
    assert(fingerprint_material(method, path, Some(b), operation_id) == prefix + decimal(b as nat));
    assert((prefix + decimal(a as nat)).skip(prefix.len() as int) =~= decimal(a as nat));
    assert((prefix + decimal(b as nat)).skip(prefix.len() as int) =~= decimal(b as nat));
}

/// A byte that `http::HeaderValue` accepts: visible ASCII, obs-text, or tab.
pub open spec fn header_value_byte_ok(b: u8) -> bool {
    (b >= 32 && b != 127) || b == 9
}

/// Text that `http::HeaderValue::from_str` accepts: every byte of its UTF-8
/// encoding is a valid header value byte.
pub open spec fn header_value_accepts(text: Seq<char>) -> bool {
    forall|i: int|
        0 <= i < encode_utf8(text).len() ==> header_value_byte_ok(#[trigger] encode_utf8(text)[i])
}

/// Calls `http::HeaderValue::from_str` (through `axum::http`). Trusted: it
/// succeeds exactly when every byte of the text is at least 32 and not 127,
/// or is a tab, as its `is_valid` byte check in the `http` source reads.
#[verifier::external_body]
pub(crate) fn http_header_value_accepted(text: &str) -> (accepted: bool)
    ensures
        accepted == header_value_accepts(text@),
{
    axum::http::HeaderValue::from_str(text).is_ok()
}

/// Calls `http::StatusCode::from_u16` (through `axum::http`). Trusted: it
/// succeeds exactly for codes 100 to 999, as its source reads.
#[verifier::external_body]
fn http_status_code_accepted(code: u16) -> (accepted: bool)
    ensures
        accepted == (100 <= code <= 999),
{
    axum::http::StatusCode::from_u16(code).is_ok()
}

/// What a replayed response is made of: the cached status and body, and the
/// headers whose values are valid.
#[derive(Clone, Debug)]
pub struct ReplayResponseParts {
    pub status_code: u16,
    pub body: Vec<u8>,
    pub content_type: Option<String>,
    pub request_id: Option<String>,
}

/// A header value that is kept only when valid.
pub open spec fn kept_header(value: Option<Seq<char>>, kept: Option<String>) -> bool {
    match value {
        Some(v) => if header_value_accepts(v) {
            kept matches Some(k) && k@ == v
        } else {
            kept is None
        },
        None => kept is None,
    }
}

pub open spec fn invalid_cached_status_error() -> WebFrameworkErrorView {
    error_view(
        WebFrameworkErrorKind::DependencyUnavailable,
        "cached idempotency response has invalid status"@,
    )
}

fn valid_header_text(value: &str) -> (r: Option<String>)
    ensures
        kept_header(Some(value@), r),
{
    if http_header_value_accepted(value) {
        Some(value.to_owned())
    } else {
        None
    }
}

/// Parts of the response that replays a cached record: refused when the
/// cached status is not a valid HTTP status; a content type or request id
/// that is not a valid header value is left out.
pub fn idempotency_replay_parts(record: &IdempotencyResponseRecord, request_id: Option<&str>) -> (r:
    Result<ReplayResponseParts, WebFrameworkError>)
    ensures
        match r {
            Ok(parts) => {
                &&& 100 <= record.status_code <= 999
                &&& parts.status_code == record.status_code
                &&& parts.body@ == record.body@
                &&& kept_header(
                    match record.content_type {
                        Some(ct) => Some(ct@),
                        None => None,
                    },
                    parts.content_type,
                )
                &&& kept_header(
                    match request_id {
                        Some(id) => Some(id@),
                        None => None,
                    },
                    parts.request_id,
                )
            },
            Err(e) => !(100 <= record.status_code <= 999) && e@ == invalid_cached_status_error(),
        },
{
    if !http_status_code_accepted(record.status_code) {
        return Err(
            WebFrameworkError::dependency_unavailable(
                "cached idempotency response has invalid status",
            ),
        );
    }
    let content_type = match &record.content_type {
        Some(ct) => valid_header_text(ct.as_str()),
        None => None,
    };
    let request_id_value = match request_id {
        Some(id) => valid_header_text(id),
        None => None,
    };
    let body = record.body.clone();
    assert(body@ =~= record.body@);
    Ok(
        ReplayResponseParts {
            status_code: record.status_code,
            body,
            content_type,
            request_id: request_id_value,
        },
    )
}

/// A client-supplied body hash decides the fingerprint: with the
/// `X-Idempotency-Fingerprint` header `f`, or else the `X-Content-SHA256`
/// header `h`, the fingerprint is the hex SHA-256 of
/// `method:path:body:<f or h>`, whatever the payload headers and the
/// body-hash requirement say.
pub proof fn lemma_explicit_body_hash_decides(
    method: Seq<char>,
    path: Seq<char>,
    operation_id: Option<&str>,
    headers: IdempotencyHeaders,
    require_body_hash_when_payload: bool,
)
    ensures
        headers.idempotency_fingerprint matches Some(f) ==> resolved_fingerprint(
            method,
            path,
            operation_id,
            headers,
            require_body_hash_when_payload,
        ) == Ok::<Seq<char>, WebFrameworkErrorView>(
            hex_lower(sha256_of(encode_utf8(method + ":"@ + path + ":body:"@ + f@))),
        ),
        headers.idempotency_fingerprint is None ==> (headers.content_sha256 matches Some(h)
            ==> resolved_fingerprint(
            method,
            path,
            operation_id,
            headers,
            require_body_hash_when_payload,
        ) == Ok::<Seq<char>, WebFrameworkErrorView>(
            hex_lower(sha256_of(encode_utf8(method + ":"@ + path + ":body:"@ + h@))),
        )),
{
}

/// Without a client body hash: a request that declares a payload
/// (`Content-Length` above zero, or `Transfer-Encoding: chunked` in any ASCII
/// case) is refused as a bad request when a body hash is required; otherwise
/// the fingerprint is the hex SHA-256 of
/// `method:path:op=<operation>:len=<declared length, or 0>`.
pub proof fn lemma_fingerprint_without_body_hash(
    method: Seq<char>,
    path: Seq<char>,
    operation_id: Option<&str>,
    headers: IdempotencyHeaders,
    require_body_hash_when_payload: bool,
)
    requires
        headers.idempotency_fingerprint is None,
        headers.content_sha256 is None,
    ensures
        ({
            let declared = match headers.content_length {
                Some(v) => parsed_u64(v@),
                None => None,
            };
            let chunked = headers.transfer_encoding matches Some(te) && te@.len() == 7 && forall|
                i: int,
            |
                0 <= i < 7 ==> (if 'A' <= #[trigger] te@[i] <= 'Z' {
                    ((te@[i] as int) + 32) as char
                } else {
                    te@[i]
                }) == "chunked"@[i];
            let payload = (declared matches Some(n) && n > 0) || chunked;
            let len: u64 = match declared {
                Some(n) => n,
                None => 0,
            };
            let op = match operation_id {
                Some(o) => o@,
                None => Seq::<char>::empty(),
            };
            &&& require_body_hash_when_payload && payload ==> resolved_fingerprint(
                method,
                path,
                operation_id,
                headers,
                require_body_hash_when_payload,
            ) == Err::<Seq<char>, WebFrameworkErrorView>(
                error_view(
                    WebFrameworkErrorKind::BadRequest,
                    "requests with a body must include X-Content-SHA256 or X-Idempotency-Fingerprint for idempotent commands"@,
                ),
            )
            &&& !(require_body_hash_when_payload && payload) ==> resolved_fingerprint(
                method,
                path,
                operation_id,
                headers,
                require_body_hash_when_payload,
            ) == Ok::<Seq<char>, WebFrameworkErrorView>(
                hex_lower(
                    sha256_of(
                        encode_utf8(
                            method + ":"@ + path + ":op="@ + op + ":len="@ + decimal(len as nat),
                        ),
                    ),
                ),
            )
        }),
{
    reveal_strlit("chunked");
    if let Some(te) = headers.transfer_encoding {
        let inline_chunked = te@.len() == 7 && forall|i: int|
            0 <= i < 7 ==> (if 'A' <= #[trigger] te@[i] <= 'Z' {
                ((te@[i] as int) + 32) as char
            } else {
                te@[i]
            }) == "chunked"@[i];
        assert(inline_chunked == equals_ignoring_ascii_case(te@, "chunked"@)) by {
            if inline_chunked {
                assert forall|i: int| 0 <= i < te@.len() implies ascii_lower(#[trigger] te@[i])
                    == ascii_lower("chunked"@[i]) by {}
            }
            if equals_ignoring_ascii_case(te@, "chunked"@) {
                assert forall|i: int| 0 <= i < 7 implies (if 'A' <= #[trigger] te@[i] <= 'Z' {
                    ((te@[i] as int) + 32) as char
                } else {
                    te@[i]
                }) == "chunked"@[i] by {
                    assert(ascii_lower(te@[i]) == ascii_lower("chunked"@[i]));
                }
            }
        }
    }
}

} // verus!
