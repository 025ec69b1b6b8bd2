//! Notes, department traces and edit sessions of a reservation.
use vstd::prelude::*;

use crate::error::AppError;
use crate::text::{
    is_blank, is_blank_str, normalize_optional_input, normalize_required_string, trim,
};

verus! {

/// The kinds of reservation notes.
#[derive(Clone, Copy, Debug, PartialEq, Eq, Structural)]
pub enum ReservationNoteKind {
    GlobalMemo,
    DepartmentTrace,
}

/// The normalised content of a new note or trace.
#[derive(Clone, Debug)]
pub struct NoteContent {
    pub kind: ReservationNoteKind,
    pub department_code: Option<String>,
    pub body: String,
    pub actor_id: Option<String>,
}

/// The trimmed text of an optional input, `None` where nothing but white space is given.
pub open spec fn normalized_option(value: Option<String>) -> Option<Seq<char>> {
    match value {
        Some(v) => if is_blank(v@) {
            None
        } else {
            Some(trim(v@))
        },
        None => None,
    }
}

pub open spec fn text_option_view(value: Option<String>) -> Option<Seq<char>> {
    match value {
        Some(v) => Some(v@),
        None => None,
    }
}

/// Preparing a note: the body is required; a department trace needs a department code and a
/// global memo must not have one.  Texts are trimmed; blank optional texts are dropped.
pub fn prepare_reservation_note(
    reservation_found: bool,
    kind: ReservationNoteKind,
    body: String,
    department_code: Option<String>,
    actor_id: Option<String>,
) -> (r: Result<NoteContent, AppError>)
    ensures
        !reservation_found ==> r == Err::<NoteContent, AppError>(AppError::ReservationNotFound),
        reservation_found && is_blank(body@) ==> r == Err::<NoteContent, AppError>(
            AppError::BodyRequired,
        ),
        reservation_found && !is_blank(body@) ==> {
            let dept = normalized_option(department_code);
            if kind == ReservationNoteKind::DepartmentTrace && dept is None {
                r == Err::<NoteContent, AppError>(AppError::DepartmentCodeRequiredForTrace)
            } else if kind == ReservationNoteKind::GlobalMemo && dept is Some {
                r == Err::<NoteContent, AppError>(AppError::DepartmentCodeOnlyForTrace)
            } else {
                r matches Ok(n) && n.kind == kind && n.body@ == trim(body@)
                    && text_option_view(n.department_code) == dept && text_option_view(n.actor_id)
                    == normalized_option(actor_id)
            }
        },
{
    if !reservation_found {
        return Err(AppError::ReservationNotFound);
    }
    let body = match normalize_required_string(body, AppError::BodyRequired) {
        Ok(b) => b,
        Err(e) => {
            return Err(e);
        },
    };
    let department_code = normalize_optional_input(department_code);
    if kind == ReservationNoteKind::DepartmentTrace && department_code.is_none() {
        return Err(AppError::DepartmentCodeRequiredForTrace);
    }
    if kind == ReservationNoteKind::GlobalMemo && department_code.is_some() {
        return Err(AppError::DepartmentCodeOnlyForTrace);
    }
    let actor_id = normalize_optional_input(actor_id);
    Ok(NoteContent { kind, department_code, body, actor_id })
}

pub open spec fn spec_note_action(kind: ReservationNoteKind) -> Seq<char> {
    match kind {
        ReservationNoteKind::GlobalMemo => "reservation.memo.add"@,
        ReservationNoteKind::DepartmentTrace => "reservation.trace.add"@,
    }
}

/// The audit action recorded when a note of this kind is added.
pub fn note_action(kind: ReservationNoteKind) -> (r: &'static str)
    ensures
        r@ == spec_note_action(kind),
{
    match kind {
        ReservationNoteKind::GlobalMemo => "reservation.memo.add",
        ReservationNoteKind::DepartmentTrace => "reservation.trace.add",
    }
}

/// Preparing a department trace: the body and the department code are required.
pub fn prepare_reservation_trace(
    reservation_found: bool,
    body: String,
    department_code: String,
    actor_id: Option<String>,
) -> (r: Result<NoteContent, AppError>)
    ensures
        !reservation_found ==> r == Err::<NoteContent, AppError>(AppError::ReservationNotFound),
        reservation_found && is_blank(body@) ==> r == Err::<NoteContent, AppError>(
            AppError::BodyRequired,
        ),
        reservation_found && !is_blank(body@) && is_blank(department_code@) ==> r == Err::<
            NoteContent,
            AppError,
        >(AppError::DepartmentCodeRequired),
        reservation_found && !is_blank(body@) && !is_blank(department_code@) ==> (r matches Ok(n)
            && n.kind == ReservationNoteKind::DepartmentTrace && n.body@ == trim(body@)
            && text_option_view(n.department_code) == Some(trim(department_code@))
            && text_option_view(n.actor_id) == normalized_option(actor_id)),
{
    if !reservation_found {
        return Err(AppError::ReservationNotFound);
    }
    let body = match normalize_required_string(body, AppError::BodyRequired) {
        Ok(b) => b,
        Err(e) => {
            return Err(e);
        },
    };
    let department_code = match normalize_required_string(
        department_code,
        AppError::DepartmentCodeRequired,
    ) {
        Ok(d) => d,
        Err(e) => {
            return Err(e);
        },
    };
    let actor_id = normalize_optional_input(actor_id);
    Ok(
        NoteContent {
            kind: ReservationNoteKind::DepartmentTrace,
            department_code: Some(department_code),
            body,
            actor_id,
        },
    )
}

/// What a deletion or a resolution needs to know of an existing note or trace.
#[derive(Clone, Copy, Debug)]
pub struct NoteState {
    pub reservation_id: u128,
    pub deleted: bool,
    pub resolved: bool,
}

/// The check before deleting a note: it must exist, belong to the reservation, and not be
/// deleted already.
pub fn check_note_deletion(
    reservation_id: u128,
    reservation_found: bool,
    note: Option<NoteState>,
) -> (r: Result<(), AppError>)
    ensures
        !reservation_found ==> r == Err::<(), AppError>(AppError::ReservationNotFound),
        reservation_found ==> match note {
            None => r == Err::<(), AppError>(AppError::ReservationNoteNotFound),
            Some(n) => if n.reservation_id != reservation_id {
                r == Err::<(), AppError>(AppError::ReservationNoteNotFound)
            } else if n.deleted {
                r == Err::<(), AppError>(AppError::ReservationNoteAlreadyDeleted)
            } else {
                r is Ok
            },
        },
{
    if !reservation_found {
        return Err(AppError::ReservationNotFound);
    }
    let n = match note {
        Some(n) => n,
        None => {
            return Err(AppError::ReservationNoteNotFound);
        },
    };
    if n.reservation_id != reservation_id {
        return Err(AppError::ReservationNoteNotFound);
    }
    if n.deleted {
        return Err(AppError::ReservationNoteAlreadyDeleted);
    }
    Ok(())
}

/// What resolving a trace does.
#[derive(Clone, Copy, Debug, PartialEq, Eq, Structural)]
pub enum TraceResolution {
    /// Mark the trace resolved.
    Resolve,
    /// The trace is resolved already; nothing changes.
    AlreadyResolved,
}

/// The decision on resolving a trace: it must exist, belong to the reservation and not be
/// deleted; resolving a resolved trace changes nothing.
pub fn resolve_trace_decision(
    reservation_id: u128,
    reservation_found: bool,
    trace: Option<NoteState>,
) -> (r: Result<TraceResolution, AppError>)
    ensures
        !reservation_found ==> r == Err::<TraceResolution, AppError>(
            AppError::ReservationNotFound,
        ),
        reservation_found ==> match trace {
            None => r == Err::<TraceResolution, AppError>(AppError::ReservationTraceNotFound),
            Some(t) => if t.reservation_id != reservation_id {
                r == Err::<TraceResolution, AppError>(AppError::ReservationTraceNotFound)
            } else if t.deleted {
                r == Err::<TraceResolution, AppError>(AppError::ReservationTraceAlreadyDeleted)
            } else if t.resolved {
                r == Ok::<TraceResolution, AppError>(TraceResolution::AlreadyResolved)
            } else {
                r == Ok::<TraceResolution, AppError>(TraceResolution::Resolve)
            },
        },
{
    if !reservation_found {
        return Err(AppError::ReservationNotFound);
    }
    let t = match trace {
        Some(t) => t,
        None => {
            return Err(AppError::ReservationTraceNotFound);
        },
    };
    if t.reservation_id != reservation_id {
        return Err(AppError::ReservationTraceNotFound);
    }
    if t.deleted {
        return Err(AppError::ReservationTraceAlreadyDeleted);
    }
    if t.resolved {
        return Ok(TraceResolution::AlreadyResolved);
    }
    Ok(TraceResolution::Resolve)
}

/// A lease on editing a reservation.  Timestamps are microseconds since the Unix epoch (UTC).
#[derive(Clone, Debug)]
pub struct ReservationEditSession {
    pub id: u128,
    pub reservation_id: u128,
    pub actor_id: String,
    pub actor_label: Option<String>,
    pub opened_at: i64,
    pub expires_at: i64,
    pub closed_at: Option<i64>,
}

/// A new edit session, and the active sessions of other actors on the same reservation.
#[derive(Clone, Debug)]
pub struct OpenReservationEditSessionResult {
    pub session: ReservationEditSession,
    pub active_other_sessions: Vec<ReservationEditSession>,
}

/// The lease in minutes when the request names none.
pub const DEFAULT_LEASE_MINUTES: i64 = 15i64;

/// Microseconds in a minute.
pub const MICROS_PER_MINUTE: i64 = 60_000_000i64;

/// The sessions of actors other than `actor`, in order.
pub open spec fn sessions_of_others(sessions: Seq<ReservationEditSession>, actor: Seq<char>) -> Seq<
    ReservationEditSession,
>
    decreases sessions.len(),
{
    if sessions.len() == 0 {
        Seq::empty()
    } else {
        let rest = sessions_of_others(sessions.drop_last(), actor);
        if sessions.last().actor_id@ != actor {
            rest.push(sessions.last())
        } else {
            rest
        }
    }
}

/// The lease a request asks for.
pub open spec fn requested_lease(lease_minutes: Option<i64>) -> int {
    match lease_minutes {
        Some(m) => m as int,
        None => DEFAULT_LEASE_MINUTES as int,
    }
}

/// An edit session that opens expires between one minute and two hours after it opens.
pub proof fn lemma_session_lease_is_bounded(lease_minutes: Option<i64>, now: i64)
    requires
        1 <= requested_lease(lease_minutes) <= 120,
    ensures
        MICROS_PER_MINUTE <= (now + requested_lease(lease_minutes) * MICROS_PER_MINUTE) - now
            <= 120 * MICROS_PER_MINUTE,
{
}

/// Opening an edit session: the actor is required, the reservation must exist, and the lease
/// (15 minutes unless given) must be between 1 and 120 minutes.  The session expires that many
/// minutes after it opens; the active sessions of other actors are reported with it.
pub fn open_edit_session(
    reservation_id: u128,
    actor_id: String,
    actor_label: Option<String>,
    lease_minutes: Option<i64>,
    reservation_found: bool,
    active_sessions: Vec<ReservationEditSession>,
    session_id: u128,
    now: i64,
) -> (r: Result<OpenReservationEditSessionResult, AppError>)
    requires
        now <= i64::MAX - 120 * MICROS_PER_MINUTE,
    ensures
        is_blank(actor_id@) ==> r == Err::<OpenReservationEditSessionResult, AppError>(
            AppError::ActorIdRequired,
        ),
        !is_blank(actor_id@) && !reservation_found ==> r == Err::<
            OpenReservationEditSessionResult,
            AppError,
        >(AppError::ReservationNotFound),
        !is_blank(actor_id@) && reservation_found && !(1 <= requested_lease(lease_minutes) <= 120)
            ==> r == Err::<OpenReservationEditSessionResult, AppError>(
            AppError::LeaseMinutesOutOfRange,
        ),
        !is_blank(actor_id@) && reservation_found && 1 <= requested_lease(lease_minutes) <= 120
            ==> (r matches Ok(res) && {
            &&& res.session == ReservationEditSession {
                id: session_id,
                reservation_id,
                actor_id,
                actor_label,
                opened_at: now,
                expires_at: (now + requested_lease(lease_minutes) * MICROS_PER_MINUTE) as i64,
                closed_at: None,
            }
            &&& res.active_other_sessions@ == sessions_of_others(active_sessions@, actor_id@)
        }),
{
    if is_blank_str(actor_id.as_str()) {
        return Err(AppError::ActorIdRequired);
    }
    if !reservation_found {
        return Err(AppError::ReservationNotFound);
    }
    let ghost given = active_sessions@;
    let mut rest = active_sessions;
    let mut others: Vec<ReservationEditSession> = Vec::new();
    let ghost mut k: int = 0;
    assert(given.take(0) =~= Seq::<ReservationEditSession>::empty());
    assert(given.skip(0) =~= given);
    while rest.len() > 0
        invariant
            0 <= k <= given.len(),
            rest@ == given.skip(k),
            others@ == sessions_of_others(given.take(k), actor_id@),
        decreases rest@.len(),
    {
        let s = rest.remove(0);
        proof {
            assert(given.take(k + 1).drop_last() =~= given.take(k));
            assert(given.take(k + 1).last() == given[k]);
            assert(rest@ =~= given.skip(k + 1));
            k = k + 1;
        }
        if s.actor_id != actor_id {
            others.push(s);
        }
    }
    assert(given.take(given.len() as int) =~= given);
    let lease = match lease_minutes {
        Some(m) => m,
        None => DEFAULT_LEASE_MINUTES,
    };
    if !(1 <= lease && lease <= 120) {
        return Err(AppError::LeaseMinutesOutOfRange);
    }
    let expires_at = now + lease * MICROS_PER_MINUTE;
    Ok(
        OpenReservationEditSessionResult {
            session: ReservationEditSession {
                id: session_id,
                reservation_id,
                actor_id,
                actor_label,
                opened_at: now,
                expires_at,
                closed_at: None,
            },
            active_other_sessions: others,
        },
    )
}

} // verus!
