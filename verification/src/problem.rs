//! RFC 9457 Problem+JSON helpers: stable problem type URIs, client-safe
//! detail text, trace correlation, and path redaction for logs.

use vstd::prelude::*;
use vstd::string::{StringExecFns, StrSliceExecFns};
use crate::error::{WebFrameworkError, WebFrameworkErrorKind};
use crate::idempotency::{http_header_value_accepted, kept_header};
use crate::text::{ascii_lower, decimal, push_decimal};

verus! {

/// The problem type URI of each error kind.
pub open spec fn problem_type_uri_of(kind: WebFrameworkErrorKind) -> Seq<char> {
    match kind {
        WebFrameworkErrorKind::MissingCredentials => "https://sdkwork.dev/problems/missing-credentials"@,
        WebFrameworkErrorKind::InvalidCredentials => "https://sdkwork.dev/problems/invalid-credentials"@,
        WebFrameworkErrorKind::Forbidden => "https://sdkwork.dev/problems/forbidden"@,
        WebFrameworkErrorKind::BadRequest => "https://sdkwork.dev/problems/bad-request"@,
        WebFrameworkErrorKind::Conflict => "https://sdkwork.dev/problems/conflict"@,
        WebFrameworkErrorKind::PayloadTooLarge => "https://sdkwork.dev/problems/payload-too-large"@,
        WebFrameworkErrorKind::RateLimitExceeded => "https://sdkwork.dev/problems/rate-limit-exceeded"@,
        WebFrameworkErrorKind::DependencyUnavailable => "https://sdkwork.dev/problems/dependency-unavailable"@,
        WebFrameworkErrorKind::RequestTimeout => "https://sdkwork.dev/problems/request-timeout"@,
        WebFrameworkErrorKind::MethodNotAllowed => "https://sdkwork.dev/problems/method-not-allowed"@,
        WebFrameworkErrorKind::NotFound => "https://sdkwork.dev/problems/not-found"@,
        WebFrameworkErrorKind::NotImplemented => "https://sdkwork.dev/problems/not-implemented"@,
        WebFrameworkErrorKind::InternalServerError => "https://sdkwork.dev/problems/internal-server-error"@,
        WebFrameworkErrorKind::ContextNotInjected => "https://sdkwork.dev/problems/context-not-injected"@,
        WebFrameworkErrorKind::WebSocketRejected => "https://sdkwork.dev/problems/websocket-rejected"@,
    }
}

pub fn problem_type_uri(kind: &WebFrameworkErrorKind) -> (uri: &'static str)
    ensures
        uri@ == problem_type_uri_of(*kind),
{
    match kind {
        WebFrameworkErrorKind::MissingCredentials => "https://sdkwork.dev/problems/missing-credentials",
        WebFrameworkErrorKind::InvalidCredentials => "https://sdkwork.dev/problems/invalid-credentials",
        WebFrameworkErrorKind::Forbidden => "https://sdkwork.dev/problems/forbidden",
        WebFrameworkErrorKind::BadRequest => "https://sdkwork.dev/problems/bad-request",
        WebFrameworkErrorKind::Conflict => "https://sdkwork.dev/problems/conflict",
        WebFrameworkErrorKind::PayloadTooLarge => "https://sdkwork.dev/problems/payload-too-large",
        WebFrameworkErrorKind::RateLimitExceeded => "https://sdkwork.dev/problems/rate-limit-exceeded",
        WebFrameworkErrorKind::DependencyUnavailable => "https://sdkwork.dev/problems/dependency-unavailable",
        WebFrameworkErrorKind::RequestTimeout => "https://sdkwork.dev/problems/request-timeout",
        WebFrameworkErrorKind::MethodNotAllowed => "https://sdkwork.dev/problems/method-not-allowed",
        WebFrameworkErrorKind::NotFound => "https://sdkwork.dev/problems/not-found",
        WebFrameworkErrorKind::NotImplemented => "https://sdkwork.dev/problems/not-implemented",
        WebFrameworkErrorKind::InternalServerError => "https://sdkwork.dev/problems/internal-server-error",
        WebFrameworkErrorKind::ContextNotInjected => "https://sdkwork.dev/problems/context-not-injected",
        WebFrameworkErrorKind::WebSocketRejected => "https://sdkwork.dev/problems/websocket-rejected",
    }
}

/// Each error kind has its own problem type URI.
pub proof fn lemma_problem_type_uris_distinct(a: WebFrameworkErrorKind, b: WebFrameworkErrorKind)
    requires
        a != b,
    ensures
        problem_type_uri_of(a) != problem_type_uri_of(b),
{
    reveal_strlit("https://sdkwork.dev/problems/missing-credentials");
    reveal_strlit("https://sdkwork.dev/problems/invalid-credentials");
    reveal_strlit("https://sdkwork.dev/problems/forbidden");
    reveal_strlit("https://sdkwork.dev/problems/bad-request");
    reveal_strlit("https://sdkwork.dev/problems/conflict");
    reveal_strlit("https://sdkwork.dev/problems/payload-too-large");
    reveal_strlit("https://sdkwork.dev/problems/rate-limit-exceeded");
    reveal_strlit("https://sdkwork.dev/problems/dependency-unavailable");
    reveal_strlit("https://sdkwork.dev/problems/request-timeout");
    reveal_strlit("https://sdkwork.dev/problems/method-not-allowed");
    reveal_strlit("https://sdkwork.dev/problems/not-found");
    reveal_strlit("https://sdkwork.dev/problems/not-implemented");
    reveal_strlit("https://sdkwork.dev/problems/internal-server-error");
    reveal_strlit("https://sdkwork.dev/problems/context-not-injected");
    reveal_strlit("https://sdkwork.dev/problems/websocket-rejected");
    let ua = problem_type_uri_of(a);
    let ub = problem_type_uri_of(b);
    assert(ua.len() != ub.len() || ua[29] != ub[29] || ua[30] != ub[30] || ua[31] != ub[31] || ua[32] != ub[32]);
}

/// The `detail` a client may see for an error.
pub open spec fn client_safe_detail(kind: WebFrameworkErrorKind, message: Seq<char>) -> Seq<char> {
    match kind {
        WebFrameworkErrorKind::InternalServerError => "An internal error occurred"@,
        WebFrameworkErrorKind::DependencyUnavailable => "A required dependency is temporarily unavailable"@,
        _ => message,
    }
}

/// Client-safe Problem `detail` — internal failures must not leak implementation details.
pub fn client_safe_problem_detail(error: &WebFrameworkError) -> (detail: &str)
    ensures
        detail@ == client_safe_detail(error.kind, error.message@),
{
    match error.kind {
        WebFrameworkErrorKind::InternalServerError => "An internal error occurred",
        WebFrameworkErrorKind::DependencyUnavailable => "A required dependency is temporarily unavailable",
        _ => error.message.as_str(),
    }
}

/// Internal failures get the same detail whatever their message says.
pub proof fn lemma_internal_detail_hides_message(
    kind: WebFrameworkErrorKind,
    message_a: Seq<char>,
    message_b: Seq<char>,
)
    requires
        kind == WebFrameworkErrorKind::InternalServerError || kind
            == WebFrameworkErrorKind::DependencyUnavailable,
    ensures
        client_safe_detail(kind, message_a) == client_safe_detail(kind, message_b),
{
}

/// Correlation fields for RFC 7807 Problem+JSON.
#[derive(Clone, Copy, Debug, Default, Eq, PartialEq)]
pub struct ProblemCorrelation<'a> {
    pub request_id: Option<&'a str>,
    pub trace_id: Option<&'a str>,
}

/// The trace id a problem reports: a non-empty explicit trace id, else the
/// request id.
pub open spec fn resolved_trace(request_id: Option<&str>, trace_id: Option<&str>) -> Option<
    Seq<char>,
> {
    match trace_id {
        Some(t) if t@.len() > 0 => Some(t@),
        _ => match request_id {
            Some(r) => Some(r@),
            None => None,
        },
    }
}

impl<'a> ProblemCorrelation<'a> {
    pub fn new(request_id: Option<&'a str>, trace_id: Option<&'a str>) -> (c: Self)
        ensures
            c.request_id == request_id,
            c.trace_id == trace_id,
    {
        ProblemCorrelation { request_id, trace_id }
    }

    pub fn resolved_trace_id(&self) -> (r: Option<String>)
        ensures
            match r {
                Some(s) => resolved_trace(self.request_id, self.trace_id) == Some(s@),
                None => resolved_trace(self.request_id, self.trace_id) is None,
            },
    {
        if let Some(trace_id) = self.trace_id {
            if !trace_id.is_empty() {
                return Some(trace_id.to_owned());
            }
        }
        match self.request_id {
            Some(request_id) => Some(request_id.to_owned()),
            None => None,
        }
    }
}

impl<'a> From<Option<&'a str>> for ProblemCorrelation<'a> {
    fn from(trace_id: Option<&'a str>) -> (c: Self) {
        ProblemCorrelation { request_id: None, trace_id }
    }
}

impl<'a> vstd::std_specs::convert::FromSpecImpl<Option<&'a str>> for ProblemCorrelation<'a> {
    open spec fn obeys_from_spec() -> bool {
        true
    }

    open spec fn from_spec(trace_id: Option<&'a str>) -> ProblemCorrelation<'a> {
        ProblemCorrelation { request_id: None, trace_id }
    }
}

/// The `traceId` a problem reports: the resolved trace id, or `unknown`.
pub open spec fn problem_trace(request_id: Option<&str>, trace_id: Option<&str>) -> Seq<char> {
    match resolved_trace(request_id, trace_id) {
        Some(t) => t,
        None => "unknown"@,
    }
}

pub fn problem_trace_id(correlation: &ProblemCorrelation) -> (trace: String)
    ensures
        trace@ == problem_trace(correlation.request_id, correlation.trace_id),
{
    match correlation.resolved_trace_id() {
        Some(t) => t,
        None => "unknown".to_owned(),
    }
}

/// What a Problem+JSON response is made of, apart from the status and the
/// result code: the type URI, the client-safe detail, the trace id, and the
/// trace-id and `Retry-After` header values that are valid header values.
#[derive(Clone, Debug)]
pub struct ProblemParts {
    pub type_uri: &'static str,
    pub detail: String,
    pub trace_id: String,
    pub trace_id_header: Option<String>,
    pub retry_after_header: Option<String>,
}

/// The parts of the Problem+JSON response for an error. The trace-id header
/// is sent only when the trace id is a valid header value; `Retry-After`
/// carries the retry delay in decimal seconds, when the error has one.
pub fn problem_parts(error: &WebFrameworkError, correlation: &ProblemCorrelation) -> (parts:
    ProblemParts)
    ensures
        parts.type_uri@ == problem_type_uri_of(error.kind),
        parts.detail@ == client_safe_detail(error.kind, error.message@),
        parts.trace_id@ == problem_trace(correlation.request_id, correlation.trace_id),
        kept_header(Some(parts.trace_id@), parts.trace_id_header),
        match error.retry_after_seconds {
            Some(n) => kept_header(Some(decimal(n as nat)), parts.retry_after_header),
            None => parts.retry_after_header is None,
        },
{
    let trace_id = problem_trace_id(correlation);
    let trace_id_header = if http_header_value_accepted(trace_id.as_str()) {
        Some(trace_id.clone())
    } else {
        None
    };
    let retry_after_header = match error.retry_after_seconds {
        Some(n) => {
            let mut text = String::new();
            push_decimal(&mut text, n);
            assert(text@ =~= decimal(n as nat));
            if http_header_value_accepted(text.as_str()) {
                Some(text)
            } else {
                None
            }
        },
        None => None,
    };
    ProblemParts {
        type_uri: problem_type_uri(&error.kind),
        detail: client_safe_problem_detail(error).to_owned(),
        trace_id,
        trace_id_header,
        retry_after_header,
    }
}

// ---------------------------------------------------------------------------
// Path redaction
pub open spec fn is_ascii_digit_char(c: char) -> bool {
    '0' <= c <= '9'
}

pub open spec fn is_hex_or_dash(c: char) -> bool {
    ('0' <= c <= '9') || ('a' <= c <= 'f') || ('A' <= c <= 'F') || c == '-'
}

pub open spec fn all_ascii_digits(s: Seq<char>) -> bool {
    forall|i: int| 0 <= i < s.len() ==> is_ascii_digit_char(#[trigger] s[i])
}

pub open spec fn all_hex_or_dash(s: Seq<char>) -> bool {
    forall|i: int| 0 <= i < s.len() ==> is_hex_or_dash(#[trigger] s[i])
}

/// A path segment as logged: numeric ids and long hex/uuid-like ids become
/// `{id}`; an empty segment stays empty.
pub open spec fn redact_segment(segment: Seq<char>) -> Seq<char> {
    if segment.len() == 0 {
        segment
    } else if all_ascii_digits(segment) || (segment.len() >= 32 && all_hex_or_dash(segment)) {
        "{id}"@
    } else {
        segment
    }
}

/// The pieces of `s` between `/` characters, as `str::split('/')` gives them.
pub open spec fn split_slash(s: Seq<char>) -> Seq<Seq<char>>
    decreases s.len(),
{
    if s.len() == 0 {
        seq![Seq::<char>::empty()]
    } else {
        let parts = split_slash(s.drop_last());
        if s.last() == '/' {
            parts.push(Seq::<char>::empty())
        } else {
            parts.update(parts.len() - 1, parts.last().push(s.last()))
        }
    }
}

/// The pieces joined with `/` between them.
pub open spec fn join_slash(parts: Seq<Seq<char>>) -> Seq<char>
    decreases parts.len(),
{
    if parts.len() == 0 {
        Seq::empty()
    } else if parts.len() == 1 {
        parts[0]
    } else {
        join_slash(parts.drop_last()) + "/"@ + parts.last()
    }
}

pub open spec fn redact_all(parts: Seq<Seq<char>>) -> Seq<Seq<char>> {
    parts.map_values(|segment: Seq<char>| redact_segment(segment))
}

/// The redacted path: each segment redacted, the `/` separators kept.
pub open spec fn redacted_path(path: Seq<char>) -> Seq<char> {
    join_slash(redact_all(split_slash(path)))
}

/// The joined form of all but the last piece, followed by `/` (empty when
/// there is a single piece).
spec fn joined_before_last(parts: Seq<Seq<char>>) -> Seq<char> {
    if parts.len() <= 1 {
        Seq::empty()
    } else {
        join_slash(parts.drop_last()) + "/"@
    }
}

proof fn lemma_split_slash_nonempty(s: Seq<char>)
    ensures
        split_slash(s).len() >= 1,
    decreases s.len(),
{
    if s.len() > 0 {
        lemma_split_slash_nonempty(s.drop_last());
    }
}

fn all_digits(segment: &str, n: usize) -> (r: bool)
    requires
        n == segment@.len(),
    ensures
        r == all_ascii_digits(segment@),
{
    let mut i: usize = 0;
    while i < n
        invariant
            n == segment@.len(),
            0 <= i <= n,
            forall|j: int| 0 <= j < i ==> is_ascii_digit_char(#[trigger] segment@[j]),
        decreases n - i,
    {
        let c = segment.get_char(i);
        if !('0' <= c && c <= '9') {
            assert(!is_ascii_digit_char(segment@[i as int]));
            return false;
        }
        i = i + 1;
    }
    true
}

fn all_hex_dash(segment: &str, n: usize) -> (r: bool)
    requires
        n == segment@.len(),
    ensures
        r == all_hex_or_dash(segment@),
{
    let mut i: usize = 0;
    while i < n
        invariant
            n == segment@.len(),
            0 <= i <= n,
            forall|j: int| 0 <= j < i ==> is_hex_or_dash(#[trigger] segment@[j]),
        decreases n - i,
    {
        let c = segment.get_char(i);
        if !(('0' <= c && c <= '9') || ('a' <= c && c <= 'f') || ('A' <= c && c <= 'F') || c
            == '-') {
            assert(!is_hex_or_dash(segment@[i as int]));
            return false;
        }
        i = i + 1;
    }
    true
}

/// Appends the redacted form of one segment.
fn push_redacted_segment(out: &mut String, segment: &str)
    ensures
        final(out)@ == old(out)@ + redact_segment(segment@),
{
    let n = segment.unicode_len();
    if n == 0 {
        assert(old(out)@ + segment@ =~= old(out)@);
        return;
    }
    if all_digits(segment, n) || (n >= 32 && all_hex_dash(segment, n)) {
        out.append("{id}");
    } else {
        out.append(segment);
    }
}

/// Redact numeric/uuid-like path segments for logging.
pub fn redact_path_template(path: &str) -> (redacted: String)
    ensures
        redacted@ == redacted_path(path@),
{
    let n = path.unicode_len();
    let mut out = String::new();
    let mut seg_start: usize = 0;
    let mut i: usize = 0;
    proof {
        assert(path@.take(0) =~= Seq::<char>::empty());
        assert(path@.subrange(0, 0) =~= Seq::<char>::empty());
    }
    while i < n
        invariant
            n == path@.len(),
            0 <= seg_start <= i <= n,
            split_slash(path@.take(i as int)).len() >= 1,
            split_slash(path@.take(i as int)).last() == path@.subrange(seg_start as int, i as int),
            out@ == joined_before_last(redact_all(split_slash(path@.take(i as int)))),
        decreases n - i,
    {
        let ghost parts = split_slash(path@.take(i as int));
        let ghost next = path@.take(i + 1);
        let c = path.get_char(i);
        proof {
            assert(next.drop_last() =~= path@.take(i as int));
            assert(next.last() == c);
            lemma_split_slash_nonempty(path@.take(i as int));
        }
        if c == '/' {
            let segment = path.substring_char(seg_start, i);
            push_redacted_segment(&mut out, segment);
            out.append("/");
            proof {
                let np = split_slash(next);
                assert(np == parts.push(Seq::<char>::empty()));
                let m = redact_all(parts);
                let nm = redact_all(np);
                assert(nm.drop_last() =~= m);
                if parts.len() == 1 {
                    assert(join_slash(m) == m[0]);
                } else {
                    assert(m.drop_last() =~= redact_all(parts.drop_last()));
                    assert(join_slash(m) == join_slash(m.drop_last()) + "/"@ + m.last());
                }
                assert(m.last() == redact_segment(parts.last()));
                assert(out@ =~= joined_before_last(nm));
                assert(path@.subrange(i + 1, i + 1) =~= Seq::<char>::empty());
            }
            seg_start = i + 1;
        } else {
            proof {
                let np = split_slash(next);
                assert(np == parts.update(parts.len() - 1, parts.last().push(c)));
                assert(redact_all(np).drop_last() =~= redact_all(parts).drop_last());
                assert(path@.subrange(seg_start as int, i + 1) =~= path@.subrange(
                    seg_start as int,
                    i as int,
                ).push(c));
            }
        }
        i = i + 1;
    }
    let segment = path.substring_char(seg_start, n);
    push_redacted_segment(&mut out, segment);
    proof {
        assert(path@.take(n as int) =~= path@);
        let parts = split_slash(path@);
        let m = redact_all(parts);
        if parts.len() == 1 {
            assert(join_slash(m) == m[0]);
        } else {
            assert(join_slash(m) == join_slash(m.drop_last()) + "/"@ + m.last());
        }
        assert(out@ =~= join_slash(m));
    }
    out
}

pub open spec fn has_no_slash(s: Seq<char>) -> bool {
    forall|i: int| 0 <= i < s.len() ==> #[trigger] s[i] != '/'
}

proof fn lemma_split_slash_parts_have_no_slash(s: Seq<char>)
    ensures
        forall|k: int|
            0 <= k < split_slash(s).len() ==> has_no_slash(#[trigger] split_slash(s)[k]),
    decreases s.len(),
{
    if s.len() > 0 {
        lemma_split_slash_parts_have_no_slash(s.drop_last());
        lemma_split_slash_nonempty(s.drop_last());
        let parts = split_slash(s.drop_last());
        if s.last() != '/' {
            assert forall|k: int| 0 <= k < split_slash(s).len() implies has_no_slash(
                #[trigger] split_slash(s)[k],
            ) by {
                if k == parts.len() - 1 {
                    assert(split_slash(s)[k] == parts.last().push(s.last()));
                    assert(has_no_slash(parts[k]));
                }
            }
        }
    }
}

proof fn lemma_split_slash_append_plain(s: Seq<char>, b: Seq<char>)
    requires
        has_no_slash(b),
    ensures
        split_slash(s + b) == split_slash(s).update(
            split_slash(s).len() - 1,
            split_slash(s).last() + b,
        ),
    decreases b.len(),
{
    lemma_split_slash_nonempty(s);
    let parts = split_slash(s);
    if b.len() == 0 {
        assert(s + b =~= s);
        assert(parts.last() + b =~= parts.last());
        assert(parts.update(parts.len() - 1, parts.last()) =~= parts);
    } else {
        let b0 = b.drop_last();
        assert(has_no_slash(b0));
        lemma_split_slash_append_plain(s, b0);
        assert((s + b).drop_last() =~= s + b0);
        assert((s + b).last() == b.last());
        assert(b.last() != '/');
        lemma_split_slash_nonempty(s + b0);
        assert(parts.last() + b0 + seq![b.last()] =~= parts.last() + b);
        let p0 = split_slash(s + b0);
        assert(p0.len() == parts.len());
        assert(p0.last() == parts.last() + b0);
        assert(split_slash(s + b) == p0.update(p0.len() - 1, p0.last().push(b.last())));
        assert((parts.last() + b0).push(b.last()) =~= parts.last() + b);
        assert(split_slash(s + b) =~= parts.update(parts.len() - 1, parts.last() + b));
    }
}

proof fn lemma_split_slash_of_join(parts: Seq<Seq<char>>)
    requires
        parts.len() >= 1,
        forall|k: int| 0 <= k < parts.len() ==> has_no_slash(#[trigger] parts[k]),
    ensures
        split_slash(join_slash(parts)) == parts,
    decreases parts.len(),
{
    reveal_strlit("/");
    if parts.len() == 1 {
        lemma_split_slash_append_plain(Seq::<char>::empty(), parts[0]);
        assert(Seq::<char>::empty() + parts[0] =~= parts[0]);
        assert(split_slash(Seq::<char>::empty()) =~= seq![Seq::<char>::empty()]);
        assert(split_slash(parts[0]) =~= parts);
    } else {
        let front = parts.drop_last();
        assert forall|k: int| 0 <= k < front.len() implies has_no_slash(#[trigger] front[k]) by {
            assert(front[k] == parts[k]);
        }
        lemma_split_slash_of_join(front);
        let j = join_slash(front);
        let js = j + "/"@;
        assert(js.drop_last() =~= j);
        assert(js.last() == '/');
        assert(split_slash(js) == split_slash(j).push(Seq::<char>::empty()));
        assert(has_no_slash(parts.last()));
        lemma_split_slash_append_plain(js, parts.last());
        assert(Seq::<char>::empty() + parts.last() =~= parts.last());
        assert(split_slash(js + parts.last()) =~= parts);
    }
}

proof fn lemma_redact_segment_idempotent(segment: Seq<char>)
    ensures
        redact_segment(redact_segment(segment)) == redact_segment(segment),
        has_no_slash(segment) ==> has_no_slash(redact_segment(segment)),
{
    reveal_strlit("{id}");
    let id = "{id}"@;
    assert(!is_ascii_digit_char(id[0]));
    if redact_segment(segment) == id {
        assert(!all_ascii_digits(id));
    }
}

/// A redacted path keeps the segments of the path: as many, in order.
pub proof fn lemma_redaction_keeps_segments(path: Seq<char>)
    ensures
        split_slash(redacted_path(path)) == redact_all(split_slash(path)),
        split_slash(redacted_path(path)).len() == split_slash(path).len(),
{
    let parts = split_slash(path);
    lemma_split_slash_nonempty(path);
    lemma_split_slash_parts_have_no_slash(path);
    let r = redact_all(parts);
    assert forall|k: int| 0 <= k < r.len() implies has_no_slash(#[trigger] r[k]) by {
        assert(has_no_slash(parts[k]));
        lemma_redact_segment_idempotent(parts[k]);
    }
    lemma_split_slash_of_join(r);
}

/// Redacting a path that was already redacted changes nothing.
pub proof fn lemma_redaction_idempotent(path: Seq<char>)
    ensures
        redacted_path(redacted_path(path)) == redacted_path(path),
{
    lemma_redaction_keeps_segments(path);
    let r = redact_all(split_slash(path));
    assert forall|k: int| 0 <= k < r.len() implies #[trigger] redact_all(r)[k] == r[k] by {
        lemma_redact_segment_idempotent(split_slash(path)[k]);
    }
    assert(redact_all(r) =~= r);
}

/// Redaction works segment by segment: appending a segment to a path appends
/// its logged form to the redacted path, and a lone segment is logged in that
/// form. A segment is logged as `{id}` when it is non-empty and either all
/// ASCII digits, or at least 32 characters each an ASCII hex digit of either
/// case or `-`; otherwise as it is.
pub proof fn lemma_redaction_segment_by_segment(path: Seq<char>, segment: Seq<char>)
    requires
        forall|i: int| 0 <= i < segment.len() ==> segment[i] != '/',
    ensures
        ({
            let shown = if segment.len() > 0 && ((forall|i: int|
                0 <= i < segment.len() ==> '0' <= #[trigger] segment[i] <= '9') || (segment.len()
                >= 32 && forall|i: int|
                0 <= i < segment.len() ==> ('0' <= #[trigger] segment[i] <= '9' || 'a' <= segment[i]
                    <= 'f' || 'A' <= segment[i] <= 'F' || segment[i] == '-'))) {
                "{id}"@
            } else {
                segment
            };
            &&& redacted_path(path + "/"@ + segment) == redacted_path(path) + "/"@ + shown
            &&& redacted_path(segment) == shown
        }),
{
    reveal_strlit("/");
    assert(has_no_slash(segment));
    let empty = Seq::<char>::empty();
    lemma_split_slash_nonempty(path);
    let parts = split_slash(path);
    let with_sep = path + "/"@;
    assert(with_sep.drop_last() =~= path);
    assert(with_sep.last() == '/');
    assert(split_slash(with_sep) == parts.push(empty));
    lemma_split_slash_append_plain(with_sep, segment);
    assert(empty + segment =~= segment);
    let all = split_slash(with_sep + segment);
    assert(all =~= parts.push(segment));
    let r = redact_all(all);
    assert(r.drop_last() =~= redact_all(parts));
    assert(r.last() == redact_segment(segment));
    assert(join_slash(r) == join_slash(r.drop_last()) + "/"@ + r.last());
    lemma_split_slash_append_plain(empty, segment);
    assert(split_slash(empty) =~= seq![empty]);
    assert(split_slash(empty + segment) =~= seq![segment]);
    assert(redact_all(seq![segment]) =~= seq![redact_segment(segment)]);
}

/// The name of an error kind, as written in its declaration.
pub open spec fn error_kind_name(kind: WebFrameworkErrorKind) -> Seq<char> {
    match kind {
        WebFrameworkErrorKind::MissingCredentials => "MissingCredentials"@,
        WebFrameworkErrorKind::InvalidCredentials => "InvalidCredentials"@,
        WebFrameworkErrorKind::Forbidden => "Forbidden"@,
        WebFrameworkErrorKind::BadRequest => "BadRequest"@,
        WebFrameworkErrorKind::Conflict => "Conflict"@,
        WebFrameworkErrorKind::PayloadTooLarge => "PayloadTooLarge"@,
        WebFrameworkErrorKind::RateLimitExceeded => "RateLimitExceeded"@,
        WebFrameworkErrorKind::DependencyUnavailable => "DependencyUnavailable"@,
        WebFrameworkErrorKind::RequestTimeout => "RequestTimeout"@,
        WebFrameworkErrorKind::MethodNotAllowed => "MethodNotAllowed"@,
        WebFrameworkErrorKind::NotFound => "NotFound"@,
        WebFrameworkErrorKind::NotImplemented => "NotImplemented"@,
        WebFrameworkErrorKind::InternalServerError => "InternalServerError"@,
        WebFrameworkErrorKind::ContextNotInjected => "ContextNotInjected"@,
        WebFrameworkErrorKind::WebSocketRejected => "WebSocketRejected"@,
    }
}

pub open spec fn without_dashes(s: Seq<char>) -> Seq<char>
    decreases s.len(),
{
    if s.len() == 0 {
        s
    } else if s.last() == '-' {
        without_dashes(s.drop_last())
    } else {
        without_dashes(s.drop_last()).push(s.last())
    }
}

pub open spec fn lower_case(s: Seq<char>) -> Seq<char> {
    s.map_values(|c: char| ascii_lower(c))
}

pub open spec fn problem_type_prefix() -> Seq<char> {
    "https://sdkwork.dev/problems/"@
}

/// The problem type URI of `kind` is the common prefix followed by a slug
/// that, without its dashes, is the kind's name in lower case.
pub open spec fn uri_names_kind(kind: WebFrameworkErrorKind) -> bool {
    let uri = problem_type_uri_of(kind);
    let prefix = problem_type_prefix();
    &&& uri.len() > prefix.len()
    &&& uri.take(prefix.len() as int) == prefix
    &&& without_dashes(uri.skip(prefix.len() as int)) == lower_case(error_kind_name(kind))
}

proof fn lemma_slug_of_missing_credentials()
    ensures
        uri_names_kind(WebFrameworkErrorKind::MissingCredentials),
{
    reveal_strlit("https://sdkwork.dev/problems/");
    reveal_strlit("https://sdkwork.dev/problems/missing-credentials");
    reveal_strlit("MissingCredentials");
    reveal_with_fuel(without_dashes, 21);
    let uri = problem_type_uri_of(WebFrameworkErrorKind::MissingCredentials);
    assert(uri.take(29) =~= problem_type_prefix());
    assert(without_dashes(uri.skip(29)) =~= lower_case(error_kind_name(WebFrameworkErrorKind::MissingCredentials)));
}

proof fn lemma_slug_of_invalid_credentials()
    ensures
        uri_names_kind(WebFrameworkErrorKind::InvalidCredentials),
{
    reveal_strlit("https://sdkwork.dev/problems/");
    reveal_strlit("https://sdkwork.dev/problems/invalid-credentials");
    reveal_strlit("InvalidCredentials");
    reveal_with_fuel(without_dashes, 21);
    let uri = problem_type_uri_of(WebFrameworkErrorKind::InvalidCredentials);
    assert(uri.take(29) =~= problem_type_prefix());
    assert(without_dashes(uri.skip(29)) =~= lower_case(error_kind_name(WebFrameworkErrorKind::InvalidCredentials)));
}

proof fn lemma_slug_of_forbidden()
    ensures
        uri_names_kind(WebFrameworkErrorKind::Forbidden),
{
    reveal_strlit("https://sdkwork.dev/problems/");
    reveal_strlit("https://sdkwork.dev/problems/forbidden");
    reveal_strlit("Forbidden");
    reveal_with_fuel(without_dashes, 11);
    let uri = problem_type_uri_of(WebFrameworkErrorKind::Forbidden);
    assert(uri.take(29) =~= problem_type_prefix());
    assert(without_dashes(uri.skip(29)) =~= lower_case(error_kind_name(WebFrameworkErrorKind::Forbidden)));
}

proof fn lemma_slug_of_bad_request()
    ensures
        uri_names_kind(WebFrameworkErrorKind::BadRequest),
{
    reveal_strlit("https://sdkwork.dev/problems/");
    reveal_strlit("https://sdkwork.dev/problems/bad-request");
    reveal_strlit("BadRequest");
    reveal_with_fuel(without_dashes, 13);
    let uri = problem_type_uri_of(WebFrameworkErrorKind::BadRequest);
    assert(uri.take(29) =~= problem_type_prefix());
    assert(without_dashes(uri.skip(29)) =~= lower_case(error_kind_name(WebFrameworkErrorKind::BadRequest)));
}

proof fn lemma_slug_of_conflict()
    ensures
        uri_names_kind(WebFrameworkErrorKind::Conflict),
{
    reveal_strlit("https://sdkwork.dev/problems/");
    reveal_strlit("https://sdkwork.dev/problems/conflict");
    reveal_strlit("Conflict");
    reveal_with_fuel(without_dashes, 10);
    let uri = problem_type_uri_of(WebFrameworkErrorKind::Conflict);
    assert(uri.take(29) =~= problem_type_prefix());
    assert(without_dashes(uri.skip(29)) =~= lower_case(error_kind_name(WebFrameworkErrorKind::Conflict)));
}

proof fn lemma_slug_of_payload_too_large()
    ensures
        uri_names_kind(WebFrameworkErrorKind::PayloadTooLarge),
{
    reveal_strlit("https://sdkwork.dev/problems/");
    reveal_strlit("https://sdkwork.dev/problems/payload-too-large");
    reveal_strlit("PayloadTooLarge");
    reveal_with_fuel(without_dashes, 19);
    let uri = problem_type_uri_of(WebFrameworkErrorKind::PayloadTooLarge);
    assert(uri.take(29) =~= problem_type_prefix());
    assert(without_dashes(uri.skip(29)) =~= lower_case(error_kind_name(WebFrameworkErrorKind::PayloadTooLarge)));
}

proof fn lemma_slug_of_rate_limit_exceeded()
    ensures
        uri_names_kind(WebFrameworkErrorKind::RateLimitExceeded),
{
    reveal_strlit("https://sdkwork.dev/problems/");
    reveal_strlit("https://sdkwork.dev/problems/rate-limit-exceeded");
    reveal_strlit("RateLimitExceeded");
    reveal_with_fuel(without_dashes, 21);
    let uri = problem_type_uri_of(WebFrameworkErrorKind::RateLimitExceeded);
    assert(uri.take(29) =~= problem_type_prefix());
    assert(without_dashes(uri.skip(29)) =~= lower_case(error_kind_name(WebFrameworkErrorKind::RateLimitExceeded)));
}

proof fn lemma_slug_of_dependency_unavailable()
    ensures
        uri_names_kind(WebFrameworkErrorKind::DependencyUnavailable),
{
    reveal_strlit("https://sdkwork.dev/problems/");
    reveal_strlit("https://sdkwork.dev/problems/dependency-unavailable");
    reveal_strlit("DependencyUnavailable");
    reveal_with_fuel(without_dashes, 24);
    let uri = problem_type_uri_of(WebFrameworkErrorKind::DependencyUnavailable);
    assert(uri.take(29) =~= problem_type_prefix());
    assert(without_dashes(uri.skip(29)) =~= lower_case(error_kind_name(WebFrameworkErrorKind::DependencyUnavailable)));
}

proof fn lemma_slug_of_request_timeout()
    ensures
        uri_names_kind(WebFrameworkErrorKind::RequestTimeout),
{
    reveal_strlit("https://sdkwork.dev/problems/");
    reveal_strlit("https://sdkwork.dev/problems/request-timeout");
    reveal_strlit("RequestTimeout");
    reveal_with_fuel(without_dashes, 17);
    let uri = problem_type_uri_of(WebFrameworkErrorKind::RequestTimeout);
    assert(uri.take(29) =~= problem_type_prefix());
    assert(without_dashes(uri.skip(29)) =~= lower_case(error_kind_name(WebFrameworkErrorKind::RequestTimeout)));
}

proof fn lemma_slug_of_method_not_allowed()
    ensures
        uri_names_kind(WebFrameworkErrorKind::MethodNotAllowed),
{
    reveal_strlit("https://sdkwork.dev/problems/");
    reveal_strlit("https://sdkwork.dev/problems/method-not-allowed");
    reveal_strlit("MethodNotAllowed");
    reveal_with_fuel(without_dashes, 20);
    let uri = problem_type_uri_of(WebFrameworkErrorKind::MethodNotAllowed);
    assert(uri.take(29) =~= problem_type_prefix());
    assert(without_dashes(uri.skip(29)) =~= lower_case(error_kind_name(WebFrameworkErrorKind::MethodNotAllowed)));
}

proof fn lemma_slug_of_not_found()
    ensures
        uri_names_kind(WebFrameworkErrorKind::NotFound),
{
    reveal_strlit("https://sdkwork.dev/problems/");
    reveal_strlit("https://sdkwork.dev/problems/not-found");
    reveal_strlit("NotFound");
    reveal_with_fuel(without_dashes, 11);
    let uri = problem_type_uri_of(WebFrameworkErrorKind::NotFound);
    assert(uri.take(29) =~= problem_type_prefix());
    assert(without_dashes(uri.skip(29)) =~= lower_case(error_kind_name(WebFrameworkErrorKind::NotFound)));
}

proof fn lemma_slug_of_not_implemented()
    ensures
        uri_names_kind(WebFrameworkErrorKind::NotImplemented),
{
    reveal_strlit("https://sdkwork.dev/problems/");
    reveal_strlit("https://sdkwork.dev/problems/not-implemented");
    reveal_strlit("NotImplemented");
    reveal_with_fuel(without_dashes, 17);
    let uri = problem_type_uri_of(WebFrameworkErrorKind::NotImplemented);
    assert(uri.take(29) =~= problem_type_prefix());
    assert(without_dashes(uri.skip(29)) =~= lower_case(error_kind_name(WebFrameworkErrorKind::NotImplemented)));
}

proof fn lemma_slug_of_internal_server_error()
    ensures
        uri_names_kind(WebFrameworkErrorKind::InternalServerError),
{
    reveal_strlit("https://sdkwork.dev/problems/");
    reveal_strlit("https://sdkwork.dev/problems/internal-server-error");
    reveal_strlit("InternalServerError");
    reveal_with_fuel(without_dashes, 23);
    let uri = problem_type_uri_of(WebFrameworkErrorKind::InternalServerError);
    assert(uri.take(29) =~= problem_type_prefix());
    assert(without_dashes(uri.skip(29)) =~= lower_case(error_kind_name(WebFrameworkErrorKind::InternalServerError)));
}

proof fn lemma_slug_of_context_not_injected()
    ensures
        uri_names_kind(WebFrameworkErrorKind::ContextNotInjected),
{
    reveal_strlit("https://sdkwork.dev/problems/");
    reveal_strlit("https://sdkwork.dev/problems/context-not-injected");
    reveal_strlit("ContextNotInjected");
    reveal_with_fuel(without_dashes, 22);
    let uri = problem_type_uri_of(WebFrameworkErrorKind::ContextNotInjected);
    assert(uri.take(29) =~= problem_type_prefix());
    assert(without_dashes(uri.skip(29)) =~= lower_case(error_kind_name(WebFrameworkErrorKind::ContextNotInjected)));
}

proof fn lemma_slug_of_web_socket_rejected()
    ensures
        uri_names_kind(WebFrameworkErrorKind::WebSocketRejected),
{
    reveal_strlit("https://sdkwork.dev/problems/");
    reveal_strlit("https://sdkwork.dev/problems/websocket-rejected");
    reveal_strlit("WebSocketRejected");
    reveal_with_fuel(without_dashes, 20);
    let uri = problem_type_uri_of(WebFrameworkErrorKind::WebSocketRejected);
    assert(uri.take(29) =~= problem_type_prefix());
    assert(without_dashes(uri.skip(29)) =~= lower_case(error_kind_name(WebFrameworkErrorKind::WebSocketRejected)));
}

/// Each error kind's problem type URI is the common prefix followed by a
/// slug that, without its dashes, is the kind's name in lower case
/// (`BadRequest` gives `.../bad-request`, `Forbidden` gives `.../forbidden`).
pub proof fn lemma_problem_type_uri_names_its_kind(kind: WebFrameworkErrorKind)
    ensures
        problem_type_uri_of(kind).len() > problem_type_prefix().len(),
        problem_type_uri_of(kind).take(problem_type_prefix().len() as int) == problem_type_prefix(),
        without_dashes(problem_type_uri_of(kind).skip(problem_type_prefix().len() as int))
            == lower_case(error_kind_name(kind)),
{
    match kind {
        WebFrameworkErrorKind::MissingCredentials => lemma_slug_of_missing_credentials(),
        WebFrameworkErrorKind::InvalidCredentials => lemma_slug_of_invalid_credentials(),
        WebFrameworkErrorKind::Forbidden => lemma_slug_of_forbidden(),
        WebFrameworkErrorKind::BadRequest => lemma_slug_of_bad_request(),
        WebFrameworkErrorKind::Conflict => lemma_slug_of_conflict(),
        WebFrameworkErrorKind::PayloadTooLarge => lemma_slug_of_payload_too_large(),
        WebFrameworkErrorKind::RateLimitExceeded => lemma_slug_of_rate_limit_exceeded(),
        WebFrameworkErrorKind::DependencyUnavailable => lemma_slug_of_dependency_unavailable(),
        WebFrameworkErrorKind::RequestTimeout => lemma_slug_of_request_timeout(),
        WebFrameworkErrorKind::MethodNotAllowed => lemma_slug_of_method_not_allowed(),
        WebFrameworkErrorKind::NotFound => lemma_slug_of_not_found(),
        WebFrameworkErrorKind::NotImplemented => lemma_slug_of_not_implemented(),
        WebFrameworkErrorKind::InternalServerError => lemma_slug_of_internal_server_error(),
        WebFrameworkErrorKind::ContextNotInjected => lemma_slug_of_context_not_injected(),
        WebFrameworkErrorKind::WebSocketRejected => lemma_slug_of_web_socket_rejected(),
    }
}

/// What a client reads as detail: internal and dependency failures get a
/// fixed sentence, every other error its own message.
pub proof fn lemma_client_detail_by_kind(kind: WebFrameworkErrorKind, message: Seq<char>)
    ensures
        kind matches WebFrameworkErrorKind::InternalServerError ==> client_safe_detail(kind, message)
            == "An internal error occurred"@,
        kind matches WebFrameworkErrorKind::DependencyUnavailable ==> client_safe_detail(
            kind,
            message,
        ) == "A required dependency is temporarily unavailable"@,
        !(kind matches WebFrameworkErrorKind::InternalServerError) && !(kind
            matches WebFrameworkErrorKind::DependencyUnavailable) ==> client_safe_detail(
            kind,
            message,
        ) == message,
{
}

/// The trace id of a problem: a non-empty explicit trace id wins over the
/// request id; an empty or missing one gives way to the request id; with
/// neither there is none, and the response reports `unknown`.
pub proof fn lemma_trace_id_precedence(request_id: Option<&str>, trace_id: Option<&str>)
    ensures
        (trace_id matches Some(t) && t@.len() > 0) ==> resolved_trace(request_id, trace_id)
            == Some(trace_id->0@),
        !(trace_id matches Some(t) && t@.len() > 0) ==> resolved_trace(request_id, trace_id) == (
        match request_id {
            Some(r) => Some(r@),
            None => None::<Seq<char>>,
        }),
        resolved_trace(request_id, trace_id) is None ==> problem_trace(request_id, trace_id)
            == "unknown"@,
        resolved_trace(request_id, trace_id) matches Some(t) ==> problem_trace(
            request_id,
            trace_id,
        ) == t,
{
}

} // verus!
