//! The fixed-window counter of the SQL rate-limit store: given the stored
//! bucket of a key, whether a request is admitted and what is written back.

use vstd::prelude::*;
use crate::error::{WebFrameworkError, WebFrameworkErrorKind, WebFrameworkErrorView};

verus! {

/// A stored bucket: requests counted in the window that started at `window_start`.
#[derive(Clone, Copy, Debug, PartialEq, Eq, Structural)]
pub struct RateLimitBucket {
    pub request_count: i64,
    pub window_start: i64,
}

/// The window length in seconds as the store counts it: at least one second,
/// converted to `i64` (as `as i64` does).
pub open spec fn window_secs_of(window_secs: u64) -> i64 {
    (if window_secs < 1 {
        1
    } else {
        window_secs
    }) as i64
}

/// `a.saturating_sub(b)` on `i64`.
pub open spec fn saturating_sub_i64(a: i64, b: i64) -> int {
    let d = a - b;
    if d > i64::MAX {
        i64::MAX as int
    } else if d < i64::MIN {
        i64::MIN as int
    } else {
        d
    }
}

pub open spec fn rate_limit_exceeded_error(window: i64) -> WebFrameworkErrorView {
    WebFrameworkErrorView {
        kind: WebFrameworkErrorKind::RateLimitExceeded,
        message: "rate limit exceeded"@,
        retry_after_seconds: Some(window as u64),
    }
}

/// What a request to a key at time `now` does to its bucket: a missing or
/// elapsed window starts a new one with this request; otherwise the request
/// is counted in the current window. It is refused when the count would
/// pass `max_requests`.
pub open spec fn rate_limit_outcome(
    bucket: Option<RateLimitBucket>,
    now: i64,
    window_secs: u64,
    max_requests: u32,
) -> Result<RateLimitBucket, WebFrameworkErrorView> {
    let w = window_secs_of(window_secs);
    let fresh = RateLimitBucket { request_count: 1, window_start: now };
    let next: Result<RateLimitBucket, WebFrameworkErrorView> = match bucket {
        None => Ok(fresh),
        Some(b) => if saturating_sub_i64(now, b.window_start) >= w {
            Ok(fresh)
        } else if b.request_count >= max_requests {
            Err(rate_limit_exceeded_error(w))
        } else {
            Ok(RateLimitBucket { request_count: (b.request_count + 1) as i64, window_start: b.window_start })
        },
    };
    match next {
        Ok(n) => if n.request_count > max_requests {
            Err(rate_limit_exceeded_error(w))
        } else {
            Ok(n)
        },
        Err(e) => Err(e),
    }
}

pub fn i64_saturating_sub(a: i64, b: i64) -> (r: i64)
    ensures
        r == saturating_sub_i64(a, b),
{
    let d: i128 = a as i128 - b as i128;
    if d > i64::MAX as i128 {
        i64::MAX
    } else if d < i64::MIN as i128 {
        i64::MIN
    } else {
        d as i64
    }
}

/// Decides a request against the stored bucket of its key.
pub fn rate_limit_decision(
    bucket: Option<RateLimitBucket>,
    now: i64,
    window_secs: u64,
    max_requests: u32,
) -> (r: Result<RateLimitBucket, WebFrameworkError>)
    ensures
        match r {
            Ok(b) => rate_limit_outcome(bucket, now, window_secs, max_requests) == Ok::<
                RateLimitBucket,
                WebFrameworkErrorView,
            >(b),
            Err(e) => rate_limit_outcome(bucket, now, window_secs, max_requests) == Err::<
                RateLimitBucket,
                WebFrameworkErrorView,
            >(e@),
        },
{
    let window: u64 = if window_secs < 1 {
        1
    } else {
        window_secs
    };
    let w = window as i64;
    let max = max_requests as i64;
    let next = match bucket {
        None => RateLimitBucket { request_count: 1, window_start: now },
        Some(b) => if i64_saturating_sub(now, b.window_start) >= w {
            RateLimitBucket { request_count: 1, window_start: now }
        } else {
            if b.request_count >= max {
                return Err(WebFrameworkError::rate_limit_exceeded("rate limit exceeded", w as u64));
            }
            RateLimitBucket { request_count: (b.request_count + 1) as i64, window_start: b.window_start }
        },
    };
    if next.request_count > max {
        return Err(WebFrameworkError::rate_limit_exceeded("rate limit exceeded", w as u64));
    }
    Ok(next)
}

/// An admitted request leaves between one and `max_requests` requests
/// counted in the window.
pub proof fn lemma_admitted_bucket_within_limit(
    bucket: Option<RateLimitBucket>,
    now: i64,
    window_secs: u64,
    max_requests: u32,
)
    requires
        bucket matches Some(b) ==> b.request_count >= 0,
    ensures
        rate_limit_outcome(bucket, now, window_secs, max_requests) matches Ok(next) ==> 1
            <= next.request_count <= max_requests,
{
}

/// A limit of zero refuses every request.
pub proof fn lemma_zero_limit_refuses(bucket: Option<RateLimitBucket>, now: i64, window_secs: u64)
    requires
        bucket matches Some(b) ==> b.request_count >= 0,
    ensures
        rate_limit_outcome(bucket, now, window_secs, 0) is Err,
{
}

/// Inside an open window, a request is admitted exactly when fewer than
/// `max_requests` were counted, and it is counted in that same window.
pub proof fn lemma_open_window_counts(b: RateLimitBucket, now: i64, window_secs: u64, max_requests: u32)
    requires
        saturating_sub_i64(now, b.window_start) < window_secs_of(window_secs),
        b.request_count >= 0,
    ensures
        rate_limit_outcome(Some(b), now, window_secs, max_requests) is Ok <==> b.request_count
            < max_requests,
        rate_limit_outcome(Some(b), now, window_secs, max_requests) matches Ok(next) ==> next
            == (RateLimitBucket { request_count: (b.request_count + 1) as i64, window_start: b.window_start }),
{
}

/// Once the window has elapsed, the counter starts over at this request.
pub proof fn lemma_elapsed_window_restarts(b: RateLimitBucket, now: i64, window_secs: u64, max_requests: u32)
    requires
        saturating_sub_i64(now, b.window_start) >= window_secs_of(window_secs),
        max_requests >= 1,
    ensures
        rate_limit_outcome(Some(b), now, window_secs, max_requests) == Ok::<
            RateLimitBucket,
            WebFrameworkErrorView,
        >(RateLimitBucket { request_count: 1, window_start: now }),
{
}

/// The answers to successive requests to one key at `times`, each request
/// seeing the bucket the admitted ones before it left (a refused request
/// leaves the bucket as it was).
pub open spec fn request_answers(
    bucket: Option<RateLimitBucket>,
    times: Seq<i64>,
    window_secs: u64,
    max_requests: u32,
) -> Seq<bool>
    decreases times.len(),
{
    if times.len() == 0 {
        Seq::empty()
    } else {
        match rate_limit_outcome(bucket, times[0], window_secs, max_requests) {
            Ok(next) => seq![true] + request_answers(
                Some(next),
                times.drop_first(),
                window_secs,
                max_requests,
            ),
            Err(_) => seq![false] + request_answers(
                bucket,
                times.drop_first(),
                window_secs,
                max_requests,
            ),
        }
    }
}

/// All `times` fall inside the window that opened at `start`.
pub open spec fn within_window(times: Seq<i64>, start: i64, window_secs: u64) -> bool {
    forall|i: int|
        0 <= i < times.len() ==> 0 <= #[trigger] times[i] - start < window_secs_of(window_secs)
}

proof fn lemma_answers_in_open_window(
    count: i64,
    start: i64,
    times: Seq<i64>,
    window_secs: u64,
    max_requests: u32,
)
    requires
        0 <= count,
        within_window(times, start, window_secs),
    ensures
        request_answers(
            Some(RateLimitBucket { request_count: count, window_start: start }),
            times,
            window_secs,
            max_requests,
        ).len() == times.len(),
        forall|i: int|
            0 <= i < times.len() ==> #[trigger] request_answers(
                Some(RateLimitBucket { request_count: count, window_start: start }),
                times,
                window_secs,
                max_requests,
            )[i] == (count + i < max_requests),
    decreases times.len(),
{
    if times.len() > 0 {
        let b = RateLimitBucket { request_count: count, window_start: start };
        let rest = times.drop_first();
        assert(within_window(rest, start, window_secs)) by {
            assert forall|i: int| 0 <= i < rest.len() implies 0 <= #[trigger] rest[i] - start
                < window_secs_of(window_secs) by {
                assert(rest[i] == times[i + 1]);
            }
        }
        assert(0 <= times[0] - start < window_secs_of(window_secs));
        assert(saturating_sub_i64(times[0], start) == times[0] - start);
        let answers = request_answers(Some(b), times, window_secs, max_requests);
        if count < max_requests {
            let next = RateLimitBucket { request_count: (count + 1) as i64, window_start: start };
            assert(rate_limit_outcome(Some(b), times[0], window_secs, max_requests) == Ok::<
                RateLimitBucket,
                WebFrameworkErrorView,
            >(next));
            lemma_answers_in_open_window((count + 1) as i64, start, rest, window_secs, max_requests);
            let tail = request_answers(Some(next), rest, window_secs, max_requests);
            assert(answers == seq![true] + tail);
            assert forall|i: int| 0 <= i < times.len() implies #[trigger] answers[i] == (count + i
                < max_requests) by {
                if i > 0 {
                    assert(answers[i] == tail[i - 1]);
                }
            }
        } else {
            assert(rate_limit_outcome(Some(b), times[0], window_secs, max_requests) is Err);
            lemma_answers_in_open_window(count, start, rest, window_secs, max_requests);
            let tail = request_answers(Some(b), rest, window_secs, max_requests);
            assert(answers == seq![false] + tail);
            assert forall|i: int| 0 <= i < times.len() implies #[trigger] answers[i] == (count + i
                < max_requests) by {
                if i > 0 {
                    assert(answers[i] == tail[i - 1]);
                }
            }
        }
    }
}

/// Fixed-window admission over a sequence of requests to one key: when the
/// first opens a new window (no bucket, or the old window has elapsed) and
/// all of them fall inside that window, exactly the first `max_requests` are
/// admitted and the rest refused.
pub proof fn lemma_window_admits_first_max_requests(
    bucket: Option<RateLimitBucket>,
    times: Seq<i64>,
    window_secs: u64,
    max_requests: u32,
)
    requires
        max_requests >= 1,
        times.len() >= 1,
        bucket matches Some(b) ==> saturating_sub_i64(times[0], b.window_start) >= window_secs_of(
            window_secs,
        ),
        within_window(times, times[0], window_secs),
    ensures
        request_answers(bucket, times, window_secs, max_requests).len() == times.len(),
        forall|i: int|
            0 <= i < times.len() ==> #[trigger] request_answers(
                bucket,
                times,
                window_secs,
                max_requests,
            )[i] == (i < max_requests),
{
    let t0 = times[0];
    let fresh = RateLimitBucket { request_count: 1, window_start: t0 };
    assert(rate_limit_outcome(bucket, t0, window_secs, max_requests) == Ok::<
        RateLimitBucket,
        WebFrameworkErrorView,
    >(fresh));
    let rest = times.drop_first();
    assert(within_window(rest, t0, window_secs)) by {
        assert forall|i: int| 0 <= i < rest.len() implies 0 <= #[trigger] rest[i] - t0
            < window_secs_of(window_secs) by {
            assert(rest[i] == times[i + 1]);
        }
    }
    lemma_answers_in_open_window(1, t0, rest, window_secs, max_requests);
    let answers = request_answers(bucket, times, window_secs, max_requests);
    let tail = request_answers(Some(fresh), rest, window_secs, max_requests);
    assert(answers == seq![true] + tail);
    assert forall|i: int| 0 <= i < times.len() implies #[trigger] answers[i] == (i
        < max_requests) by {
        if i > 0 {
            assert(answers[i] == tail[i - 1]);
        }
    }
}

/// The window is exactly `window_secs` seconds long (for windows of 1 to
/// `i64::MAX` seconds), counted from the bucket's start:
/// - a request less than `window_secs` after the start, with `max_requests`
///   already counted, is refused and told to retry after `window_secs`;
/// - one with fewer counted is admitted into the same window, one more counted;
/// - one `window_secs` or more after the start opens a new window at `now`
///   (when at least one request is allowed).
pub proof fn lemma_window_length_is_window_secs(
    bucket: RateLimitBucket,
    now: i64,
    window_secs: u64,
    max_requests: u32,
)
    requires
        1 <= window_secs <= i64::MAX,
        bucket.window_start <= now,
        bucket.request_count >= 0,
    ensures
        now - bucket.window_start < window_secs && bucket.request_count >= max_requests ==> (
        is_refusal_retrying_after(
            rate_limit_outcome(Some(bucket), now, window_secs, max_requests),
            window_secs,
        )),
        now - bucket.window_start < window_secs && bucket.request_count < max_requests
            ==> rate_limit_outcome(Some(bucket), now, window_secs, max_requests) == Ok::<
            RateLimitBucket,
            WebFrameworkErrorView,
        >(
            RateLimitBucket {
                request_count: (bucket.request_count + 1) as i64,
                window_start: bucket.window_start,
            },
        ),
        now - bucket.window_start >= window_secs && max_requests >= 1 ==> rate_limit_outcome(
            Some(bucket),
            now,
            window_secs,
            max_requests,
        ) == Ok::<RateLimitBucket, WebFrameworkErrorView>(
            RateLimitBucket { request_count: 1, window_start: now },
        ),
{
}

/// The answer is a rate-limit refusal that asks to retry after `retry_after` seconds.
pub open spec fn is_refusal_retrying_after(
    outcome: Result<RateLimitBucket, WebFrameworkErrorView>,
    retry_after: u64,
) -> bool {
    outcome matches Err(e) && e.kind == WebFrameworkErrorKind::RateLimitExceeded
        && e.retry_after_seconds == Some(retry_after)
}

/// A key's first request opens a window at `now` with one request counted,
/// unless no request is allowed at all, which is refused with the window
/// length (at least one second) as retry delay.
pub proof fn lemma_first_request_opens_window(now: i64, window_secs: u64, max_requests: u32)
    requires
        window_secs <= i64::MAX,
    ensures
        max_requests >= 1 ==> rate_limit_outcome(None, now, window_secs, max_requests) == Ok::<
            RateLimitBucket,
            WebFrameworkErrorView,
        >(RateLimitBucket { request_count: 1, window_start: now }),
        max_requests == 0 ==> is_refusal_retrying_after(
            rate_limit_outcome(None, now, window_secs, max_requests),
            if window_secs == 0 {
                1
            } else {
                window_secs
            },
        ),
{
}

} // verus!
