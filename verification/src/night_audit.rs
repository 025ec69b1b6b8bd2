//! The business date and the night audit that closes it.
//!
//! A business date is open during the day.  Starting the night audit puts it into closing;
//! while it closes, arrivals that did not come are marked no-show or deferred, departures
//! that did not leave are extended, and room charges are posted.  Finalising closes the date
//! and opens the next one.
use vstd::prelude::*;

use crate::date::{next_day, Date, MAX_DAY};
use crate::error::AppError;
use crate::folio::{Folio, FolioStatus};
use crate::money::{
    amount_is_positive, checked_add_amounts, decimal_checked_add, exact_add, exact_of,
    fits_mantissa, is_positive, lemma_checked_sum_is_exact, pow10, represents, Money,
};
use crate::reservation::{
    DailyRevenueAllocation, DailyStayDetail, PackageBreakdown, Reservation, ReservationStatus,
    RevenueCategory, StayStatus,
};

verus! {

/// Where a business date stands.
#[derive(Clone, Copy, Debug, PartialEq, Eq, Structural)]
pub enum BusinessDateStatus {
    Open,
    Closing,
    Closed,
}

/// The hotel's operating day.  Timestamps are microseconds since the Unix epoch (UTC).
#[derive(Clone, Copy, Debug)]
pub struct BusinessDate {
    pub id: u128,
    pub business_date: Date,
    pub status: BusinessDateStatus,
    pub opened_at: i64,
    pub closing_started_at: Option<i64>,
    pub closed_at: Option<i64>,
}

/// A reservation the night audit lists as not yet resolved.
#[derive(Clone, Debug)]
pub struct NightAuditReservationItem {
    pub reservation_id: u128,
    pub external_id: Option<String>,
    pub check_in: Date,
    pub check_out: Date,
    pub room_id: Option<u128>,
}

/// A room charge the night audit has to post.
#[derive(Clone, Copy, Debug)]
pub struct NightAuditRoomChargeCandidate {
    pub reservation_id: u128,
    pub folio_id: u128,
    pub service_date: Date,
    pub amount: Money,
}

/// What is left to do before the business date can be closed.
#[derive(Clone, Debug)]
pub struct NightAuditWorklist {
    pub business_date: BusinessDate,
    pub unresolved_arrivals: Vec<NightAuditReservationItem>,
    pub unresolved_departures: Vec<NightAuditReservationItem>,
    pub room_charge_candidates: Vec<NightAuditRoomChargeCandidate>,
}

/// The closed business date and the one opened after it.
#[derive(Clone, Copy, Debug)]
pub struct FinalizeNightAuditResult {
    pub closed_business_date: BusinessDate,
    pub current_business_date: BusinessDate,
}

/// The business date `b` put into closing at `now`.
pub open spec fn closing_started(b: BusinessDate, now: i64) -> BusinessDate {
    BusinessDate { status: BusinessDateStatus::Closing, closing_started_at: Some(now), ..b }
}

/// The business date `b` closed at `now`.
pub open spec fn closed_at(b: BusinessDate, now: i64) -> BusinessDate {
    BusinessDate { status: BusinessDateStatus::Closed, closed_at: Some(now), ..b }
}

/// Starting and then finalising the night audit closes the business date that was open: it
/// keeps its id, its day and the time it opened, and records when closing started and when it
/// closed.
pub proof fn lemma_audit_closes_the_open_date(b: BusinessDate, started: i64, finished: i64)
    ensures
        closed_at(closing_started(b, started), finished) == (BusinessDate {
            status: BusinessDateStatus::Closed,
            closing_started_at: Some(started),
            closed_at: Some(finished),
            ..b
        }),
{
}

/// Starting the night audit: the open business date starts closing.
pub fn start_night_audit(open_business_date: Option<BusinessDate>, now: i64) -> (r: Result<
    BusinessDate,
    AppError,
>)
    ensures
        match open_business_date {
            None => r == Err::<BusinessDate, AppError>(AppError::OpenBusinessDateNotFound),
            Some(b) => r == Ok::<BusinessDate, AppError>(closing_started(b, now)),
        },
{
    match open_business_date {
        None => Err(AppError::OpenBusinessDateNotFound),
        Some(b) => Ok(
            BusinessDate { status: BusinessDateStatus::Closing, closing_started_at: Some(now), ..b },
        ),
    }
}

/// The refusal of finalising the night audit, in the order the service checks: a closing
/// business date must exist, and nothing may be left on its worklist (no unresolved arrival
/// or departure, no unposted room charge, no room charge blocker).  `None` where it goes.
pub open spec fn finalize_refusal(
    closing_business_date: Option<BusinessDate>,
    worklist: NightAuditWorklist,
    room_charge_blocker_count: usize,
) -> Option<AppError> {
    if closing_business_date is None {
        Some(AppError::ClosingBusinessDateNotFound)
    } else if worklist.unresolved_arrivals@.len() > 0 {
        Some(AppError::UnresolvedArrivals)
    } else if worklist.unresolved_departures@.len() > 0 {
        Some(AppError::UnresolvedDepartures)
    } else if worklist.room_charge_candidates@.len() > 0 {
        Some(AppError::UnpostedRoomCharges)
    } else if room_charge_blocker_count > 0 {
        Some(AppError::RoomChargeBlockers)
    } else {
        None
    }
}

/// The checks before the night audit is finalised (see `finalize_refusal`); the closing
/// business date where they pass.
pub fn check_night_audit_closable(
    closing_business_date: Option<BusinessDate>,
    worklist: &NightAuditWorklist,
    room_charge_blocker_count: usize,
) -> (r: Result<BusinessDate, AppError>)
    ensures
        match finalize_refusal(closing_business_date, *worklist, room_charge_blocker_count) {
            Some(e) => r == Err::<BusinessDate, AppError>(e),
            None => r == Ok::<BusinessDate, AppError>(closing_business_date->0),
        },
{
    let b = match closing_business_date {
        Some(b) => b,
        None => {
            return Err(AppError::ClosingBusinessDateNotFound);
        },
    };
    if worklist.unresolved_arrivals.len() > 0 {
        return Err(AppError::UnresolvedArrivals);
    }
    if worklist.unresolved_departures.len() > 0 {
        return Err(AppError::UnresolvedDepartures);
    }
    if worklist.room_charge_candidates.len() > 0 {
        return Err(AppError::UnpostedRoomCharges);
    }
    if room_charge_blocker_count > 0 {
        return Err(AppError::RoomChargeBlockers);
    }
    Ok(b)
}

/// Finalising the night audit: where `check_night_audit_closable` passes, the closing date is
/// closed and the next calendar day opens as the new business date.  (The day after the last
/// date `chrono` can hold does not exist; the service panics there, after its refusals.)
pub fn finalize_night_audit(
    closing_business_date: Option<BusinessDate>,
    worklist: &NightAuditWorklist,
    room_charge_blocker_count: usize,
    now: i64,
    next_business_date_id: u128,
) -> (r: Result<FinalizeNightAuditResult, AppError>)
    requires
        finalize_refusal(closing_business_date, *worklist, room_charge_blocker_count) is None
            ==> closing_business_date->0.business_date.day_of() < MAX_DAY,
    ensures
        match finalize_refusal(closing_business_date, *worklist, room_charge_blocker_count) {
            Some(e) => r == Err::<FinalizeNightAuditResult, AppError>(e),
            None => r matches Ok(res) && {
                let b = closing_business_date->0;
                &&& res.closed_business_date == closed_at(b, now)
                &&& res.current_business_date.id == next_business_date_id
                &&& res.current_business_date.business_date.day_of() == b.business_date.day_of()
                    + 1
                &&& res.current_business_date.status == BusinessDateStatus::Open
                &&& res.current_business_date.opened_at == now
                &&& res.current_business_date.closing_started_at is None
                &&& res.current_business_date.closed_at is None
            },
        },
{
    let b = match check_night_audit_closable(
        closing_business_date,
        worklist,
        room_charge_blocker_count,
    ) {
        Ok(b) => b,
        Err(e) => {
            return Err(e);
        },
    };
    let next = next_day(b.business_date).unwrap();
    Ok(
        FinalizeNightAuditResult {
            closed_business_date: BusinessDate {
                status: BusinessDateStatus::Closed,
                closed_at: Some(now),
                ..b
            },
            current_business_date: BusinessDate {
                id: next_business_date_id,
                business_date: next,
                status: BusinessDateStatus::Open,
                opened_at: now,
                closing_started_at: None,
                closed_at: None,
            },
        },
    )
}

/// The check that an operation is dated on the current business date.
pub fn ensure_operation_date_matches_business_date(
    operation_date: Date,
    business_date: &BusinessDate,
) -> (r: Result<(), AppError>)
    ensures
        operation_date == business_date.business_date ==> r is Ok,
        operation_date != business_date.business_date ==> r == Err::<(), AppError>(
            AppError::OperationDateMismatch,
        ),
{
    if !operation_date.same_day(&business_date.business_date) {
        return Err(AppError::OperationDateMismatch);
    }
    Ok(())
}

/// The night-audit line of a reservation.
pub fn reservation_item(reservation: &Reservation) -> (r: NightAuditReservationItem)
    ensures
        r.reservation_id == reservation.id,
        r.external_id == reservation.external_id,
        r.check_in == reservation.check_in,
        r.check_out == reservation.check_out,
        r.room_id == reservation.room_id,
{
    let external_id = match &reservation.external_id {
        Some(s) => Some(s.clone()),
        None => None,
    };
    NightAuditReservationItem {
        reservation_id: reservation.id,
        external_id,
        check_in: reservation.check_in,
        check_out: reservation.check_out,
        room_id: reservation.room_id,
    }
}

/// The position of the first open folio in `folios`, if any.
pub open spec fn first_open_folio(folios: Seq<Folio>) -> Option<int>
    decreases folios.len(),
{
    if folios.len() == 0 {
        None
    } else if folios[0].status == FolioStatus::Open {
        Some(0)
    } else {
        match first_open_folio(folios.drop_first()) {
            Some(i) => Some(i + 1),
            None => None,
        }
    }
}

/// The id of the first open folio of a reservation.
pub fn open_folio_id(folios: &Vec<Folio>) -> (r: Option<u128>)
    ensures
        match first_open_folio(folios@) {
            Some(i) => r == Some(folios@[i].id),
            None => r is None,
        },
{
    let mut i: usize = 0;
    assert(folios@.skip(0) =~= folios@);
    while i < folios.len()
        invariant
            i <= folios@.len(),
            first_open_folio(folios@) == match first_open_folio(folios@.skip(i as int)) {
                Some(k) => Some(k + i),
                None => None::<int>,
            },
        decreases folios@.len() - i,
    {
        assert(folios@.skip(i as int).drop_first() =~= folios@.skip(i + 1));
        if folios[i].status == FolioStatus::Open {
            return Some(folios[i].id);
        }
        i = i + 1;
    }
    assert(folios@.skip(i as int).len() == 0);
    None
}

/// The running sum of the room-revenue allocations among `allocations`, as the mantissa and
/// scale `rust_decimal` produces (starting from zero); `None` where it leaves the range.
pub open spec fn room_revenue_sum(allocations: Seq<DailyRevenueAllocation>) -> Option<(i128, u32)>
    decreases allocations.len(),
{
    if allocations.len() == 0 {
        Some((0i128, 0u32))
    } else {
        match room_revenue_sum(allocations.drop_last()) {
            None => None,
            Some(acc) => {
                let a = allocations.last();
                if a.revenue_category == RevenueCategory::Room {
                    decimal_checked_add(acc.0, acc.1, a.amount.mantissa_of(), a.amount.scale_of())
                } else {
                    Some(acc)
                }
            },
        }
    }
}

proof fn lemma_room_sum_overflow_persists(s: Seq<DailyRevenueAllocation>, k: int)
    requires
        0 <= k <= s.len(),
        room_revenue_sum(s.take(k)) is None,
    ensures
        room_revenue_sum(s) is None,
    decreases s.len() - k,
{
    if k < s.len() {
        assert(s.take(k + 1).drop_last() =~= s.take(k));
        lemma_room_sum_overflow_persists(s, k + 1);
    } else {
        assert(s.take(k) =~= s);
    }
}

/// The exact room revenue of the given allocations: the amounts in the room category added
/// exactly, each at its own scale.
pub open spec fn exact_room_revenue(allocations: Seq<DailyRevenueAllocation>) -> (int, nat)
    decreases allocations.len(),
{
    if allocations.len() == 0 {
        (0, 0)
    } else {
        let acc = exact_room_revenue(allocations.drop_last());
        let a = allocations.last();
        if a.revenue_category == RevenueCategory::Room {
            exact_add(acc, exact_of(a.amount))
        } else {
            acc
        }
    }
}

/// None of the partial sums of the room revenue needs more than 96 bits.
pub open spec fn room_revenue_fits(allocations: Seq<DailyRevenueAllocation>) -> bool {
    forall|k: int|
        0 <= k <= allocations.len() ==> fits_mantissa(
            #[trigger] exact_room_revenue(allocations.take(k)).0,
        )
}

/// The room revenue of a night: the sum of the allocations in the room category.  Where the
/// sum leaves `rust_decimal`'s range, its `+` panics; this function reports
/// `AdditionOverflowed` instead.
/// Where no partial sum needs more than 96 bits, the revenue is the exact sum.
pub fn room_revenue_amount(allocations: &Vec<DailyRevenueAllocation>) -> (r: Result<
    Money,
    AppError,
>)
    ensures
        match room_revenue_sum(allocations@) {
            None => r == Err::<Money, AppError>(AppError::AdditionOverflowed),
            Some(p) => r matches Ok(m) && m.mantissa_of() == p.0 && m.scale_of() == p.1,
        },
        room_revenue_fits(allocations@) ==> (r matches Ok(m) && represents(
            m,
            exact_room_revenue(allocations@),
        )),
{
    let mut total = Money::zero();
    let mut i: usize = 0;
    assert(allocations@.take(0) =~= Seq::<DailyRevenueAllocation>::empty());
    assert(pow10(0) == 1);
    while i < allocations.len()
        invariant
            i <= allocations@.len(),
            room_revenue_sum(allocations@.take(i as int)) == Some(
                (total.mantissa_of(), total.scale_of()),
            ),
            room_revenue_fits(allocations@) ==> represents(
                total,
                exact_room_revenue(allocations@.take(i as int)),
            ),
        decreases allocations@.len() - i,
    {
        assert(allocations@.take(i + 1).drop_last() =~= allocations@.take(i as int));
        assert(allocations@.take(i + 1).last() == allocations@[i as int]);
        let a = &allocations[i];
        if a.revenue_category == RevenueCategory::Room {
            let sum = checked_add_amounts(total, a.amount);
            proof {
                if room_revenue_fits(allocations@) {
                    assert(fits_mantissa(exact_room_revenue(allocations@.take(i + 1)).0));
                    lemma_checked_sum_is_exact(
                        total,
                        exact_room_revenue(allocations@.take(i as int)),
                        a.amount,
                        sum,
                    );
                }
            }
            match sum {
                Some(t) => {
                    total = t;
                },
                None => {
                    proof {
                        lemma_room_sum_overflow_persists(allocations@, i + 1);
                    }
                    return Err(AppError::AdditionOverflowed);
                },
            }
        }
        i = i + 1;
    }
    assert(allocations@.take(allocations@.len() as int) =~= allocations@);
    Ok(total)
}

/// What the night audit knows about one checked-in reservation when it looks for room charges.
#[derive(Clone, Copy, Debug)]
pub struct RoomChargeFacts {
    pub reservation_id: u128,
    /// A room charge for this reservation and night is already posted.
    pub already_posted: bool,
    /// The reservation's first open folio.
    pub open_folio_id: Option<u128>,
    /// The room revenue of the night.
    pub room_revenue: Money,
}

/// The room charge to post for one reservation, if any: none where one is already posted,
/// where the reservation has no open folio, or where the room revenue is not positive.
pub open spec fn room_charge_for(f: RoomChargeFacts, service_date: Date) -> Option<
    NightAuditRoomChargeCandidate,
> {
    if f.already_posted || f.open_folio_id is None || !is_positive(f.room_revenue) {
        None
    } else {
        Some(
            NightAuditRoomChargeCandidate {
                reservation_id: f.reservation_id,
                folio_id: f.open_folio_id->0,
                service_date,
                amount: f.room_revenue,
            },
        )
    }
}

/// The room charges to post, in the order of the reservations.
pub open spec fn room_charges_for(facts: Seq<RoomChargeFacts>, service_date: Date) -> Seq<
    NightAuditRoomChargeCandidate,
>
    decreases facts.len(),
{
    if facts.len() == 0 {
        Seq::empty()
    } else {
        let rest = room_charges_for(facts.drop_last(), service_date);
        match room_charge_for(facts.last(), service_date) {
            Some(c) => rest.push(c),
            None => rest,
        }
    }
}

/// Every room charge the night audit lists is owed: it is dated on the night, its amount is
/// positive, and it comes from a reservation that has no charge posted for the night, whose
/// open folio it goes to and whose room revenue it is.  There is at most one per reservation
/// listed.
pub proof fn lemma_room_charges_are_owed(facts: Seq<RoomChargeFacts>, service_date: Date)
    ensures
        room_charges_for(facts, service_date).len() <= facts.len(),
        forall|k: int|
            0 <= k < room_charges_for(facts, service_date).len() ==> {
                let c = #[trigger] room_charges_for(facts, service_date)[k];
                &&& c.service_date == service_date
                &&& is_positive(c.amount)
                &&& exists|i: int|
                    0 <= i < facts.len() && !(#[trigger] facts[i]).already_posted
                        && facts[i].open_folio_id == Some(c.folio_id) && facts[i].reservation_id
                        == c.reservation_id && facts[i].room_revenue == c.amount
            },
    decreases facts.len(),
{
    if facts.len() > 0 {
        let init = facts.drop_last();
        lemma_room_charges_are_owed(init, service_date);
        let rest = room_charges_for(init, service_date);
        let all = room_charges_for(facts, service_date);
        assert forall|k: int| 0 <= k < all.len() implies {
            let c = #[trigger] all[k];
            &&& c.service_date == service_date
            &&& is_positive(c.amount)
            &&& exists|i: int|
                0 <= i < facts.len() && !(#[trigger] facts[i]).already_posted
                    && facts[i].open_folio_id == Some(c.folio_id) && facts[i].reservation_id
                    == c.reservation_id && facts[i].room_revenue == c.amount
        } by {
            if k < rest.len() {
                assert(all[k] == rest[k]);
                let c = rest[k];
                let i = choose|i: int|
                    0 <= i < init.len() && !(#[trigger] init[i]).already_posted
                        && init[i].open_folio_id == Some(c.folio_id) && init[i].reservation_id
                        == c.reservation_id && init[i].room_revenue == c.amount;
                assert(facts[i] == init[i]);
            } else {
                assert(facts[facts.len() - 1] == facts.last());
            }
        }
    }
}

/// The room charges the night audit has to post for the checked-in reservations.
pub fn collect_room_charge_candidates(facts: &Vec<RoomChargeFacts>, service_date: Date) -> (r: Vec<
    NightAuditRoomChargeCandidate,
>)
    ensures
        r@ == room_charges_for(facts@, service_date),
{
    let mut out: Vec<NightAuditRoomChargeCandidate> = Vec::new();
    let mut i: usize = 0;
    assert(facts@.take(0) =~= Seq::<RoomChargeFacts>::empty());
    while i < facts.len()
        invariant
            i <= facts@.len(),
            out@ == room_charges_for(facts@.take(i as int), service_date),
        decreases facts@.len() - i,
    {
        assert(facts@.take(i + 1).drop_last() =~= facts@.take(i as int));
        assert(facts@.take(i + 1).last() == facts@[i as int]);
        let f = facts[i];
        if !f.already_posted {
            match f.open_folio_id {
                Some(folio_id) => {
                    if amount_is_positive(f.room_revenue) {
                        out.push(
                            NightAuditRoomChargeCandidate {
                                reservation_id: f.reservation_id,
                                folio_id,
                                service_date,
                                amount: f.room_revenue,
                            },
                        );
                    }
                },
                None => {},
            }
        }
        i = i + 1;
    }
    assert(facts@.take(facts@.len() as int) =~= facts@);
    out
}

/// Posting the night's room charges is refused while there are blockers.
pub fn check_room_charge_posting(room_charge_blocker_count: usize) -> (r: Result<(), AppError>)
    ensures
        room_charge_blocker_count > 0 ==> r == Err::<(), AppError>(
            AppError::RoomChargesHaveBlockers,
        ),
        room_charge_blocker_count == 0 ==> r is Ok,
{
    if room_charge_blocker_count > 0 {
        Err(AppError::RoomChargesHaveBlockers)
    } else {
        Ok(())
    }
}

} // verus!
