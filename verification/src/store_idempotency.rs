//! The decisions of the SQL idempotency store on the record it reads back
//! for a key: lead, replay, or refuse; and whether a completion was for the
//! reservation that the key holds.

use vstd::prelude::*;
use crate::error::{WebFrameworkError, WebFrameworkErrorKind, WebFrameworkErrorView, error_view};
use crate::idempotency::IdempotencyResponseRecord;

verus! {

/// A stored idempotency record; `response_status` is `None` while the
/// leading request is still running.
#[derive(Clone, Debug)]
pub struct IdempotencyRow {
    pub fingerprint: String,
    pub response_status: Option<i64>,
    pub response_body: Option<Vec<u8>>,
    pub content_type: Option<String>,
}

pub struct IdempotencyRowView {
    pub fingerprint: Seq<char>,
    pub response_status: Option<i64>,
    pub response_body: Option<Seq<u8>>,
    pub content_type: Option<Seq<char>>,
}

pub open spec fn opt_string_view(o: Option<String>) -> Option<Seq<char>> {
    match o {
        Some(s) => Some(s@),
        None => None,
    }
}

impl View for IdempotencyRow {
    type V = IdempotencyRowView;

    open spec fn view(&self) -> IdempotencyRowView {
        IdempotencyRowView {
            fingerprint: self.fingerprint@,
            response_status: self.response_status,
            response_body: match self.response_body {
                Some(b) => Some(b@),
                None => None,
            },
            content_type: opt_string_view(self.content_type),
        }
    }
}

/// The plain value of a cached response.
pub struct ResponseRecordView {
    pub status_code: u16,
    pub body: Seq<u8>,
    pub content_type: Option<Seq<char>>,
}

impl View for IdempotencyResponseRecord {
    type V = ResponseRecordView;

    open spec fn view(&self) -> ResponseRecordView {
        ResponseRecordView {
            status_code: self.status_code,
            body: self.body@,
            content_type: opt_string_view(self.content_type),
        }
    }
}

/// What the store does next with a key whose record was just read.
pub enum BeginStepView {
    /// No record: reserve the key for this request.
    Reserve,
    /// A completed record for the same request: replay it.
    Replay(ResponseRecordView),
}

#[derive(Clone, Debug)]
pub enum BeginStep {
    Reserve,
    Replay(IdempotencyResponseRecord),
}

impl View for BeginStep {
    type V = BeginStepView;

    open spec fn view(&self) -> BeginStepView {
        match self {
            BeginStep::Reserve => BeginStepView::Reserve,
            BeginStep::Replay(r) => BeginStepView::Replay(r@),
        }
    }
}

pub open spec fn fingerprint_conflict_error() -> WebFrameworkErrorView {
    error_view(
        WebFrameworkErrorKind::Conflict,
        "idempotency key was already used with a different request fingerprint"@,
    )
}

pub open spec fn in_progress_error() -> WebFrameworkErrorView {
    error_view(WebFrameworkErrorKind::Conflict, "idempotency key is already in progress"@)
}

/// The response a completed record replays: the status as stored (narrowed
/// to `u16` as `as u16` does), the body (empty when none was stored), and the
/// content type.
pub open spec fn replayed_record(row: IdempotencyRowView) -> ResponseRecordView {
    ResponseRecordView {
        status_code: row.response_status->0 as u16,
        body: match row.response_body {
            Some(b) => b,
            None => Seq::empty(),
        },
        content_type: row.content_type,
    }
}

/// What `begin` decides on the record of a key.
pub open spec fn begin_outcome(row: Option<IdempotencyRowView>, fingerprint: Seq<char>) -> Result<
    BeginStepView,
    WebFrameworkErrorView,
> {
    match row {
        None => Ok(BeginStepView::Reserve),
        Some(r) => if r.fingerprint != fingerprint {
            Err(fingerprint_conflict_error())
        } else if r.response_status is Some {
            Ok(BeginStepView::Replay(replayed_record(r)))
        } else {
            Err(in_progress_error())
        },
    }
}

pub open spec fn opt_row_view(row: Option<IdempotencyRow>) -> Option<IdempotencyRowView> {
    match row {
        Some(r) => Some(r@),
        None => None,
    }
}

/// Decides `begin` on the record read for the key.
pub fn idempotency_begin_step(row: Option<IdempotencyRow>, fingerprint: &str) -> (r: Result<
    BeginStep,
    WebFrameworkError,
>)
    ensures
        match r {
            Ok(step) => begin_outcome(opt_row_view(row), fingerprint@) == Ok::<
                BeginStepView,
                WebFrameworkErrorView,
            >(step@),
            Err(e) => begin_outcome(opt_row_view(row), fingerprint@) == Err::<
                BeginStepView,
                WebFrameworkErrorView,
            >(e@),
        },
{
    match row {
        None => Ok(BeginStep::Reserve),
        Some(r) => {
            if r.fingerprint != fingerprint.to_owned() {
                return Err(
                    WebFrameworkError::conflict(
                        "idempotency key was already used with a different request fingerprint",
                    ),
                );
            }
            match r.response_status {
                Some(status_code) => {
                    let body = match r.response_body {
                        Some(b) => b,
                        None => Vec::new(),
                    };
                    Ok(
                        BeginStep::Replay(
                            IdempotencyResponseRecord {
                                status_code: status_code as u16,
                                body,
                                content_type: r.content_type,
                            },
                        ),
                    )
                },
                None => Err(WebFrameworkError::conflict("idempotency key is already in progress")),
            }
        },
    }
}

/// After the reserving insert: a new record makes this request the leader;
/// when another request inserted first (nothing was inserted), `begin` reads
/// the key again (`false`).
pub fn reservation_taken(rows_inserted: u64) -> (leader: bool)
    ensures
        leader == (rows_inserted != 0),
{
    rows_inserted != 0
}

/// After the completing update: when it changed a record the response is
/// stored; when it changed none, the record of the key must be checked.
pub fn completion_stored(rows_updated: u64) -> (stored: bool)
    ensures
        stored == (rows_updated != 0),
{
    rows_updated != 0
}

pub open spec fn not_reserved_error() -> WebFrameworkErrorView {
    error_view(WebFrameworkErrorKind::BadRequest, "idempotency key was not reserved"@)
}

pub open spec fn completion_mismatch_error() -> WebFrameworkErrorView {
    error_view(
        WebFrameworkErrorKind::Conflict,
        "idempotency key fingerprint mismatch while completing response"@,
    )
}

/// What `complete` answers when its update changed no record, on the record
/// then read for the key.
pub open spec fn completion_outcome(row: Option<IdempotencyRowView>, fingerprint: Seq<char>) -> Result<
    (),
    WebFrameworkErrorView,
> {
    match row {
        None => Err(not_reserved_error()),
        Some(r) => if r.fingerprint != fingerprint {
            Err(completion_mismatch_error())
        } else {
            Ok(())
        },
    }
}

/// Decides `complete` after an update that changed no record: a missing
/// record was never reserved; a record of another request is a conflict; a
/// record of this request was already completed, which is accepted.
pub fn idempotency_completion_check(row: Option<IdempotencyRow>, fingerprint: &str) -> (r: Result<
    (),
    WebFrameworkError,
>)
    ensures
        match r {
            Ok(_) => completion_outcome(opt_row_view(row), fingerprint@) == Ok::<
                (),
                WebFrameworkErrorView,
            >(()),
            Err(e) => completion_outcome(opt_row_view(row), fingerprint@) == Err::<
                (),
                WebFrameworkErrorView,
            >(e@),
        },
{
    match row {
        None => Err(WebFrameworkError::bad_request("idempotency key was not reserved")),
        Some(r) => if r.fingerprint != fingerprint.to_owned() {
            Err(
                WebFrameworkError::conflict(
                    "idempotency key fingerprint mismatch while completing response",
                ),
            )
        } else {
            Ok(())
        },
    }
}

/// The record that `complete` stores for a response.
pub open spec fn completed_row(fingerprint: Seq<char>, record: ResponseRecordView) -> IdempotencyRowView {
    IdempotencyRowView {
        fingerprint,
        response_status: Some(record.status_code as i64),
        response_body: Some(record.body),
        content_type: record.content_type,
    }
}

/// The record that `begin` inserts to reserve a key: this request's
/// fingerprint and no response yet.
pub open spec fn reserved_row(fingerprint: Seq<char>) -> IdempotencyRowView {
    IdempotencyRowView {
        fingerprint,
        response_status: None,
        response_body: None,
        content_type: None,
    }
}

/// The values `begin` writes when it reserves a key.
pub fn reservation_row(fingerprint: &str) -> (row: IdempotencyRow)
    ensures
        row@ == reserved_row(fingerprint@),
{
    IdempotencyRow {
        fingerprint: fingerprint.to_owned(),
        response_status: None,
        response_body: None,
        content_type: None,
    }
}

/// The values `complete` writes for a response: the status widened to
/// `i64`, the body and the content type.
pub fn completion_row(fingerprint: &str, record: &IdempotencyResponseRecord) -> (row: IdempotencyRow)
    ensures
        row@ == completed_row(fingerprint@, record@),
{
    let body = record.body.clone();
    assert(body@ =~= record.body@);
    IdempotencyRow {
        fingerprint: fingerprint.to_owned(),
        response_status: Some(record.status_code as i64),
        response_body: Some(body),
        content_type: record.content_type.clone(),
    }
}

/// What the completing update does to the record of a key: a reservation of
/// the same fingerprint that has no response yet becomes the completed
/// record; any other record is left as it is.
pub open spec fn completion_effect(
    row: Option<IdempotencyRowView>,
    fingerprint: Seq<char>,
    record: ResponseRecordView,
) -> Option<IdempotencyRowView> {
    match row {
        Some(r) if r.fingerprint == fingerprint && r.response_status is None => Some(
            completed_row(fingerprint, record),
        ),
        _ => row,
    }
}

/// Begin, complete, begin: the first request to a key reserves it; while it
/// runs, the same request is refused as in progress; once it completes with a
/// response, the same request is answered with that response, as recorded.
pub proof fn lemma_begin_complete_begin(fingerprint: Seq<char>, record: ResponseRecordView)
    ensures
        begin_outcome(None, fingerprint) == Ok::<BeginStepView, WebFrameworkErrorView>(
            BeginStepView::Reserve,
        ),
        begin_outcome(Some(reserved_row(fingerprint)), fingerprint) == Err::<
            BeginStepView,
            WebFrameworkErrorView,
        >(in_progress_error()),
        completion_effect(Some(reserved_row(fingerprint)), fingerprint, record) == Some(
            completed_row(fingerprint, record),
        ),
        begin_outcome(
            completion_effect(Some(reserved_row(fingerprint)), fingerprint, record),
            fingerprint,
        ) == Ok::<BeginStepView, WebFrameworkErrorView>(BeginStepView::Replay(record)),
{
    lemma_completed_response_replays(fingerprint, record);
}

/// A completed response is replayed as it was recorded, to a request with the
/// same fingerprint.
pub proof fn lemma_completed_response_replays(fingerprint: Seq<char>, record: ResponseRecordView)
    ensures
        begin_outcome(Some(completed_row(fingerprint, record)), fingerprint) == Ok::<
            BeginStepView,
            WebFrameworkErrorView,
        >(BeginStepView::Replay(record)),
{
    assert((record.status_code as i64) as u16 == record.status_code);
}

/// A key is never replayed, nor reserved again, for a request with another
/// fingerprint.
pub proof fn lemma_other_fingerprint_conflicts(row: IdempotencyRowView, fingerprint: Seq<char>)
    requires
        row.fingerprint != fingerprint,
    ensures
        begin_outcome(Some(row), fingerprint) == Err::<BeginStepView, WebFrameworkErrorView>(
            fingerprint_conflict_error(),
        ),
        completion_outcome(Some(row), fingerprint) is Err,
{
}

/// The key's record after the reserving `INSERT OR IGNORE` of a request with
/// `fingerprint`, and whether the insert took: it takes exactly when the key
/// has no record.
pub open spec fn insert_or_ignore(row: Option<IdempotencyRowView>, fingerprint: Seq<char>) -> (
    Option<IdempotencyRowView>,
    bool,
) {
    match row {
        None => (Some(reserved_row(fingerprint)), true),
        Some(_) => (row, false),
    }
}

/// Reserving inserts of several requests applied one after another, in the
/// order the store serializes them: the record they leave, and which took.
pub open spec fn serialized_reservations(
    row: Option<IdempotencyRowView>,
    fingerprints: Seq<Seq<char>>,
) -> (Option<IdempotencyRowView>, Seq<bool>)
    decreases fingerprints.len(),
{
    if fingerprints.len() == 0 {
        (row, Seq::empty())
    } else {
        let (after, taken) = insert_or_ignore(row, fingerprints[0]);
        let (last, rest) = serialized_reservations(after, fingerprints.drop_first());
        (last, seq![taken] + rest)
    }
}

proof fn lemma_reservations_on_held_key(row: IdempotencyRowView, fingerprints: Seq<Seq<char>>)
    ensures
        serialized_reservations(Some(row), fingerprints).0 == Some(row),
        serialized_reservations(Some(row), fingerprints).1.len() == fingerprints.len(),
        forall|i: int|
            0 <= i < fingerprints.len() ==> !#[trigger] serialized_reservations(
                Some(row),
                fingerprints,
            ).1[i],
    decreases fingerprints.len(),
{
    if fingerprints.len() > 0 {
        lemma_reservations_on_held_key(row, fingerprints.drop_first());
        let rest = serialized_reservations(Some(row), fingerprints.drop_first()).1;
        let all = serialized_reservations(Some(row), fingerprints).1;
        assert(all == seq![false] + rest);
        assert forall|i: int| 0 <= i < fingerprints.len() implies !#[trigger] all[i] by {
            if i > 0 {
                assert(all[i] == rest[i - 1]);
            }
        }
    }
}

/// One leader per key: when requests race to reserve a key that has no
/// record, in whatever order the store serializes their inserts, exactly the
/// first insert takes (its request leads), the key then holds that request's
/// reservation, and every other request, reading the key again, is refused
/// as a conflict — "in progress" when its fingerprint is the leader's,
/// "different fingerprint" otherwise.
pub proof fn lemma_single_leader_per_key(fingerprints: Seq<Seq<char>>)
    requires
        fingerprints.len() >= 1,
    ensures
        serialized_reservations(None, fingerprints).1.len() == fingerprints.len(),
        serialized_reservations(None, fingerprints).1[0],
        forall|i: int|
            1 <= i < fingerprints.len() ==> !#[trigger] serialized_reservations(
                None,
                fingerprints,
            ).1[i],
        serialized_reservations(None, fingerprints).0 == Some(reserved_row(fingerprints[0])),
        forall|i: int|
            1 <= i < fingerprints.len() ==> #[trigger] begin_outcome(
                serialized_reservations(None, fingerprints).0,
                fingerprints[i],
            ) == Err::<BeginStepView, WebFrameworkErrorView>(
                if fingerprints[i] == fingerprints[0] {
                    in_progress_error()
                } else {
                    fingerprint_conflict_error()
                },
            ),
{
    let first = reserved_row(fingerprints[0]);
    let rest_fps = fingerprints.drop_first();
    lemma_reservations_on_held_key(first, rest_fps);
    let rest = serialized_reservations(Some(first), rest_fps).1;
    let all = serialized_reservations(None, fingerprints).1;
    assert(all == seq![true] + rest);
    assert forall|i: int| 1 <= i < fingerprints.len() implies !#[trigger] all[i] by {
        assert(all[i] == rest[i - 1]);
    }
}

} // verus!
