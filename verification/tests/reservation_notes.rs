use backend::error::AppError;
use backend::reservation_notes::{
    check_note_deletion, note_action, open_edit_session, prepare_reservation_note,
    prepare_reservation_trace, resolve_trace_decision, NoteState, ReservationEditSession,
    ReservationNoteKind, TraceResolution, DEFAULT_LEASE_MINUTES, MICROS_PER_MINUTE,
};

fn s(x: &str) -> String {
    x.to_string()
}

#[test]
fn a_memo_is_trimmed() {
    let n = prepare_reservation_note(
        true,
        ReservationNoteKind::GlobalMemo,
        s("  late arrival \n"),
        Some(s("   ")),
        Some(s(" clerk-1 ")),
    )
    .unwrap();
    assert_eq!(n.kind, ReservationNoteKind::GlobalMemo);
    assert_eq!(n.body, "late arrival");
    assert_eq!(n.department_code, None);
    assert_eq!(n.actor_id, Some(s("clerk-1")));
}

#[test]
fn a_department_trace_note() {
    let n = prepare_reservation_note(
        true,
        ReservationNoteKind::DepartmentTrace,
        s("extra towels"),
        Some(s(" HK ")),
        Some(s("")),
    )
    .unwrap();
    assert_eq!(n.kind, ReservationNoteKind::DepartmentTrace);
    assert_eq!(n.department_code, Some(s("HK")));
    assert_eq!(n.actor_id, None);
}

#[test]
fn note_refusals() {
    let note = |found: bool, kind: ReservationNoteKind, body: &str, dept: Option<&str>| {
        prepare_reservation_note(found, kind, s(body), dept.map(s), None).unwrap_err()
    };
    assert_eq!(note(false, ReservationNoteKind::GlobalMemo, "", None), AppError::ReservationNotFound);
    assert_eq!(note(true, ReservationNoteKind::GlobalMemo, " \t", None), AppError::BodyRequired);
    assert_eq!(
        note(true, ReservationNoteKind::DepartmentTrace, "x", Some("  ")),
        AppError::DepartmentCodeRequiredForTrace
    );
    assert_eq!(
        note(true, ReservationNoteKind::DepartmentTrace, "x", None),
        AppError::DepartmentCodeRequiredForTrace
    );
    assert_eq!(
        note(true, ReservationNoteKind::GlobalMemo, "x", Some("FO")),
        AppError::DepartmentCodeOnlyForTrace
    );
}

#[test]
fn audit_actions_of_notes() {
    assert_eq!(note_action(ReservationNoteKind::GlobalMemo), "reservation.memo.add");
    assert_eq!(note_action(ReservationNoteKind::DepartmentTrace), "reservation.trace.add");
}

#[test]
fn a_trace() {
    let t = prepare_reservation_trace(true, s(" call back "), s(" FO "), Some(s("a"))).unwrap();
    assert_eq!(t.kind, ReservationNoteKind::DepartmentTrace);
    assert_eq!(t.body, "call back");
    assert_eq!(t.department_code, Some(s("FO")));
    assert_eq!(t.actor_id, Some(s("a")));
    assert_eq!(
        prepare_reservation_trace(false, s("x"), s("FO"), None).unwrap_err(),
        AppError::ReservationNotFound
    );
    assert_eq!(
        prepare_reservation_trace(true, s(""), s(""), None).unwrap_err(),
        AppError::BodyRequired
    );
    assert_eq!(
        prepare_reservation_trace(true, s("x"), s(" "), None).unwrap_err(),
        AppError::DepartmentCodeRequired
    );
}

fn state(reservation_id: u128, deleted: bool, resolved: bool) -> NoteState {
    NoteState { reservation_id, deleted, resolved }
}

#[test]
fn deleting_a_note() {
    assert_eq!(check_note_deletion(1, false, None).unwrap_err(), AppError::ReservationNotFound);
    assert_eq!(check_note_deletion(1, true, None).unwrap_err(), AppError::ReservationNoteNotFound);
    assert_eq!(
        check_note_deletion(1, true, Some(state(2, false, false))).unwrap_err(),
        AppError::ReservationNoteNotFound
    );
    assert_eq!(
        check_note_deletion(1, true, Some(state(1, true, false))).unwrap_err(),
        AppError::ReservationNoteAlreadyDeleted
    );
    assert!(check_note_deletion(1, true, Some(state(1, false, true))).is_ok());
}

#[test]
fn resolving_a_trace() {
    assert_eq!(resolve_trace_decision(1, false, None).unwrap_err(), AppError::ReservationNotFound);
    assert_eq!(
        resolve_trace_decision(1, true, None).unwrap_err(),
        AppError::ReservationTraceNotFound
    );
    assert_eq!(
        resolve_trace_decision(1, true, Some(state(3, false, false))).unwrap_err(),
        AppError::ReservationTraceNotFound
    );
    assert_eq!(
        resolve_trace_decision(1, true, Some(state(1, true, true))).unwrap_err(),
        AppError::ReservationTraceAlreadyDeleted
    );
    assert_eq!(
        resolve_trace_decision(1, true, Some(state(1, false, true))).unwrap(),
        TraceResolution::AlreadyResolved
    );
    assert_eq!(
        resolve_trace_decision(1, true, Some(state(1, false, false))).unwrap(),
        TraceResolution::Resolve
    );
}

fn session(id: u128, actor: &str) -> ReservationEditSession {
    ReservationEditSession {
        id,
        reservation_id: 9,
        actor_id: s(actor),
        actor_label: None,
        opened_at: 0,
        expires_at: 10,
        closed_at: None,
    }
}

#[test]
fn opening_an_edit_session() {
    let active = vec![session(1, "alice"), session(2, "bob"), session(3, "carol")];
    let now = 1_700_000_000_000_000i64;
    let r = open_edit_session(9, s("bob"), Some(s("Bob")), None, true, active, 77, now).unwrap();
    assert_eq!(r.session.id, 77);
    assert_eq!(r.session.reservation_id, 9);
    assert_eq!(r.session.actor_id, "bob");
    assert_eq!(r.session.actor_label, Some(s("Bob")));
    assert_eq!(r.session.opened_at, now);
    assert_eq!(r.session.expires_at, now + DEFAULT_LEASE_MINUTES * MICROS_PER_MINUTE);
    assert_eq!(r.session.closed_at, None);
    let others: Vec<u128> = r.active_other_sessions.iter().map(|x| x.id).collect();
    assert_eq!(others, vec![1, 3]);
    let r = open_edit_session(9, s("bob"), None, Some(120), true, vec![], 78, now).unwrap();
    assert_eq!(r.session.expires_at, now + 120 * 60_000_000);
    let r = open_edit_session(9, s("bob"), None, Some(1), true, vec![], 78, now).unwrap();
    assert_eq!(r.session.expires_at, now + 60_000_000);
}

#[test]
fn edit_session_refusals() {
    assert_eq!(
        open_edit_session(9, s("  "), None, Some(0), false, vec![], 1, 0).unwrap_err(),
        AppError::ActorIdRequired
    );
    assert_eq!(
        open_edit_session(9, s("a"), None, Some(0), false, vec![], 1, 0).unwrap_err(),
        AppError::ReservationNotFound
    );
    assert_eq!(
        open_edit_session(9, s("a"), None, Some(0), true, vec![], 1, 0).unwrap_err(),
        AppError::LeaseMinutesOutOfRange
    );
    assert_eq!(
        open_edit_session(9, s("a"), None, Some(121), true, vec![], 1, 0).unwrap_err(),
        AppError::LeaseMinutesOutOfRange
    );
}
