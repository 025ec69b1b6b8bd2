//! The changes the night audit makes to stays: extending a departure, deferring an arrival,
//! marking a no-show, and the room charge retained for a deferred arrival.
use vstd::prelude::*;

use crate::date::{lemma_same_day_is_equal, next_day, Date, MAX_DAY};
use crate::error::AppError;
use crate::money::{amount_is_positive, is_positive, Money};
use crate::reservation::{
    DailyRevenueAllocation, DailyStayDetail, PackageBreakdown, Reservation, ReservationStatus,
    StayStatus,
};

verus! {

fn copy_text(s: &String) -> (r: String)
    ensures
        r == *s,
{
    s.clone()
}

fn copy_optional_text(s: &Option<String>) -> (r: Option<String>)
    ensures
        r == *s,
{
    match s {
        Some(t) => Some(t.clone()),
        None => None,
    }
}

/// The last stay detail dated before `day`, searching from the end.
pub open spec fn last_detail_before(details: Seq<DailyStayDetail>, day: int) -> Option<
    DailyStayDetail,
>
    decreases details.len(),
{
    if details.len() == 0 {
        None
    } else if details.last().service_date.day_of() < day {
        Some(details.last())
    } else {
        last_detail_before(details.drop_last(), day)
    }
}

/// The stay detail to add for an extension night: none where the night already has one;
/// otherwise a copy of the last earlier night, or one adult in the booked class and plan.
pub open spec fn extension_stay_detail(r: Reservation, night: Date) -> Option<DailyStayDetail> {
    if exists|i: int|
        0 <= i < r.daily_stay_details@.len() && (#[trigger] r.daily_stay_details@[i]).service_date
            == night {
        None
    } else {
        match last_detail_before(r.daily_stay_details@, night.day_of()) {
            Some(p) => Some(DailyStayDetail { service_date: night, ..p }),
            None => Some(
                DailyStayDetail {
                    service_date: night,
                    room_class: r.room_class,
                    plan_code: r.plan_code,
                    adult_count: 1,
                    child_count: 0,
                    sleep_sharing_child_count: 0,
                },
            ),
        }
    }
}

/// The stay detail to add for an extension night (see `extension_stay_detail`).
pub fn extension_daily_detail(reservation: &Reservation, night: Date) -> (r: Option<DailyStayDetail>)
    ensures
        r == extension_stay_detail(*reservation, night),
{
    let details = &reservation.daily_stay_details;
    let mut i: usize = 0;
    while i < details.len()
        invariant
            i <= details@.len(),
            details == &reservation.daily_stay_details,
            forall|j: int| 0 <= j < i ==> (#[trigger] details@[j]).service_date != night,
        decreases details@.len() - i,
    {
        if details[i].service_date.same_day(&night) {
            assert(details@[i as int].service_date == night);
            return None;
        }
        i = i + 1;
    }
    let mut k: usize = details.len();
    assert(details@.take(k as int) =~= details@);
    while k > 0
        invariant
            k <= details@.len(),
            details == &reservation.daily_stay_details,
            forall|j: int| 0 <= j < details@.len() ==> (#[trigger] details@[j]).service_date != night,
            last_detail_before(details@, night.day_of()) == last_detail_before(
                details@.take(k as int),
                night.day_of(),
            ),
        decreases k,
    {
        let d = &details[k - 1];
        assert(details@.take(k as int).last() == details@[k - 1]);
        if d.service_date.is_before(&night) {
            return Some(
                DailyStayDetail {
                    service_date: night,
                    room_class: copy_text(&d.room_class),
                    plan_code: copy_text(&d.plan_code),
                    adult_count: d.adult_count,
                    child_count: d.child_count,
                    sleep_sharing_child_count: d.sleep_sharing_child_count,
                },
            );
        }
        assert(details@.take(k as int).drop_last() =~= details@.take(k - 1));
        k = k - 1;
    }
    Some(
        DailyStayDetail {
            service_date: night,
            room_class: copy_text(&reservation.room_class),
            plan_code: copy_text(&reservation.plan_code),
            adult_count: 1,
            child_count: 0,
            sleep_sharing_child_count: 0,
        },
    )
}

/// The latest day number before `day` among the allocations.
pub open spec fn latest_day_before(allocations: Seq<DailyRevenueAllocation>, day: int) -> Option<
    int,
>
    decreases allocations.len(),
{
    if allocations.len() == 0 {
        None
    } else {
        let rest = latest_day_before(allocations.drop_last(), day);
        let d = allocations.last().service_date.day_of();
        if d < day {
            match rest {
                Some(m) => Some(if m >= d { m } else { d }),
                None => Some(d),
            }
        } else {
            rest
        }
    }
}

/// The allocations of day `from_day`, in order, re-dated to `night`.
pub open spec fn copied_allocations(
    allocations: Seq<DailyRevenueAllocation>,
    from_day: int,
    night: Date,
) -> Seq<DailyRevenueAllocation>
    decreases allocations.len(),
{
    if allocations.len() == 0 {
        Seq::empty()
    } else {
        let rest = copied_allocations(allocations.drop_last(), from_day, night);
        let a = allocations.last();
        if a.service_date.day_of() == from_day {
            rest.push(DailyRevenueAllocation { service_date: night, ..a })
        } else {
            rest
        }
    }
}

/// One allocation per package of the plan, dated `night`, without department or account.
pub open spec fn package_allocations(breakdowns: Seq<PackageBreakdown>, night: Date) -> Seq<
    DailyRevenueAllocation,
>
    decreases breakdowns.len(),
{
    if breakdowns.len() == 0 {
        Seq::empty()
    } else {
        let b = breakdowns.last();
        package_allocations(breakdowns.drop_last(), night).push(
            DailyRevenueAllocation {
                service_date: night,
                package_code: b.package_code,
                revenue_category: b.revenue_category,
                department_code: None,
                account_code: None,
                amount: b.amount,
            },
        )
    }
}

/// The revenue allocations to add for an extension night: none where the night already has
/// some; otherwise copies of the allocations of the latest earlier night, or, where there is
/// none, one allocation per package of the booked plan.
pub open spec fn extension_allocations(r: Reservation, night: Date) -> Seq<DailyRevenueAllocation> {
    let allocations = r.daily_revenue_allocations@;
    if exists|i: int| 0 <= i < allocations.len() && (#[trigger] allocations[i]).service_date == night {
        Seq::empty()
    } else {
        match latest_day_before(allocations, night.day_of()) {
            Some(p) => copied_allocations(allocations, p, night),
            None => package_allocations(r.package_breakdowns@, night),
        }
    }
}

/// The revenue allocations to add for an extension night (see `extension_allocations`).
pub fn extension_revenue_allocations(reservation: &Reservation, night: Date) -> (r: Vec<
    DailyRevenueAllocation,
>)
    ensures
        r@ == extension_allocations(*reservation, night),
{
    let allocations = &reservation.daily_revenue_allocations;
    let mut i: usize = 0;
    while i < allocations.len()
        invariant
            i <= allocations@.len(),
            allocations == &reservation.daily_revenue_allocations,
            forall|j: int| 0 <= j < i ==> (#[trigger] allocations@[j]).service_date != night,
        decreases allocations@.len() - i,
    {
        if allocations[i].service_date.same_day(&night) {
            assert(allocations@[i as int].service_date == night);
            return Vec::new();
        }
        i = i + 1;
    }
    // The latest night before the extension night.
    let mut latest: Option<i32> = None;
    let mut j: usize = 0;
    assert(allocations@.take(0) =~= Seq::<DailyRevenueAllocation>::empty());
    while j < allocations.len()
        invariant
            j <= allocations@.len(),
            latest_day_before(allocations@.take(j as int), night.day_of()) == match latest {
                Some(v) => Some(v as int),
                None => None::<int>,
            },
        decreases allocations@.len() - j,
    {
        assert(allocations@.take(j + 1).drop_last() =~= allocations@.take(j as int));
        assert(allocations@.take(j + 1).last() == allocations@[j as int]);
        let d = allocations[j].service_date.day_number();
        if d < night.day_number() {
            latest = match latest {
                Some(m) => Some(if m >= d { m } else { d }),
                None => Some(d),
            };
        }
        j = j + 1;
    }
    assert(allocations@.take(allocations@.len() as int) =~= allocations@);
    let mut out: Vec<DailyRevenueAllocation> = Vec::new();
    match latest {
        Some(p) => {
            let mut k: usize = 0;
            assert(allocations@.take(0) =~= Seq::<DailyRevenueAllocation>::empty());
            while k < allocations.len()
                invariant
                    k <= allocations@.len(),
                    out@ == copied_allocations(allocations@.take(k as int), p as int, night),
                decreases allocations@.len() - k,
            {
                assert(allocations@.take(k + 1).drop_last() =~= allocations@.take(k as int));
                assert(allocations@.take(k + 1).last() == allocations@[k as int]);
                let a = &allocations[k];
                if a.service_date.day_number() == p {
                    out.push(
                        DailyRevenueAllocation {
                            service_date: night,
                            package_code: copy_text(&a.package_code),
                            revenue_category: a.revenue_category,
                            department_code: copy_optional_text(&a.department_code),
                            account_code: copy_optional_text(&a.account_code),
                            amount: a.amount,
                        },
                    );
                }
                k = k + 1;
            }
            assert(allocations@.take(allocations@.len() as int) =~= allocations@);
        },
        None => {
            let breakdowns = &reservation.package_breakdowns;
            let mut k: usize = 0;
            assert(breakdowns@.take(0) =~= Seq::<PackageBreakdown>::empty());
            while k < breakdowns.len()
                invariant
                    k <= breakdowns@.len(),
                    out@ == package_allocations(breakdowns@.take(k as int), night),
                decreases breakdowns@.len() - k,
            {
                assert(breakdowns@.take(k + 1).drop_last() =~= breakdowns@.take(k as int));
                assert(breakdowns@.take(k + 1).last() == breakdowns@[k as int]);
                let b = &breakdowns[k];
                out.push(
                    DailyRevenueAllocation {
                        service_date: night,
                        package_code: copy_text(&b.package_code),
                        revenue_category: b.revenue_category,
                        department_code: None,
                        account_code: None,
                        amount: b.amount,
                    },
                );
                k = k + 1;
            }
            assert(breakdowns@.take(breakdowns@.len() as int) =~= breakdowns@);
        },
    }
    out
}

/// A departure extended by one night during the night audit.
#[derive(Clone, Debug)]
pub struct DepartureExtension {
    /// The reservation with its new check-out.
    pub reservation: Reservation,
    /// The room that stays occupied.
    pub room_id: u128,
    /// The night added to the stay (the closing business date).
    pub extension_night: Date,
    /// The stay detail to add for that night, if any.
    pub stay_detail: Option<DailyStayDetail>,
    /// The revenue allocations to add for that night.
    pub revenue_allocations: Vec<DailyRevenueAllocation>,
}

/// The refusal of extending a departure during the night audit, in the order the service
/// checks: the reservation must exist, be confirmed and checked in, be due to leave by the
/// business date, and have a room.  `None` where it goes.
pub open spec fn extension_refusal(business_date: Date, reservation: Option<Reservation>) -> Option<
    AppError,
> {
    match reservation {
        None => Some(AppError::ReservationNotFound),
        Some(res) => if res.reservation_status != ReservationStatus::Confirmed || res.stay_status
            != Some(StayStatus::CheckedIn) {
            Some(AppError::ExtendRequiresCheckedIn)
        } else if res.check_out.day_of() > business_date.day_of() {
            Some(AppError::ExtensionNotDue)
        } else if res.room_id is None {
            Some(AppError::RoomNotAssigned)
        } else {
            None
        },
    }
}

/// The checks before a departure is extended (see `extension_refusal`); the room that stays
/// occupied where they pass.
pub fn check_departure_extension(business_date: Date, reservation: Option<&Reservation>) -> (r:
    Result<u128, AppError>)
    ensures
        match reservation {
            None => r == Err::<u128, AppError>(AppError::ReservationNotFound),
            Some(res) => match extension_refusal(business_date, Some(*res)) {
                Some(e) => r == Err::<u128, AppError>(e),
                None => r == Ok::<u128, AppError>(res.room_id->0),
            },
        },
{
    let res = match reservation {
        Some(res) => res,
        None => {
            return Err(AppError::ReservationNotFound);
        },
    };
    let checked_in = match res.stay_status {
        Some(StayStatus::CheckedIn) => true,
        _ => false,
    };
    if res.reservation_status != ReservationStatus::Confirmed || !checked_in {
        return Err(AppError::ExtendRequiresCheckedIn);
    }
    if res.check_out.is_after(&business_date) {
        return Err(AppError::ExtensionNotDue);
    }
    match res.room_id {
        Some(id) => Ok(id),
        None => Err(AppError::RoomNotAssigned),
    }
}

/// Extending, during the night audit, a checked-in stay that is due to leave by the closing
/// business date: it now leaves the day after.  The closing date becomes an extension night,
/// with its stay detail and revenue allocations.  (The day after the last date `chrono` can
/// hold does not exist; the service panics there, after its refusals.)
pub fn extend_departure(business_date: Date, reservation: Option<Reservation>) -> (r: Result<
    DepartureExtension,
    AppError,
>)
    requires
        extension_refusal(business_date, reservation) is None ==> business_date.day_of() < MAX_DAY,
    ensures
        match extension_refusal(business_date, reservation) {
            Some(e) => r == Err::<DepartureExtension, AppError>(e),
            None => r matches Ok(x) && {
                let res = reservation->0;
                &&& x.reservation == Reservation { check_out: x.reservation.check_out, ..res }
                &&& x.reservation.check_out.day_of() == business_date.day_of() + 1
                &&& x.room_id == res.room_id->0
                &&& x.extension_night == business_date
                &&& x.stay_detail == extension_stay_detail(res, business_date)
                &&& x.revenue_allocations@ == extension_allocations(res, business_date)
            },
        },
{
    let room_id = match check_departure_extension(business_date, reservation.as_ref()) {
        Ok(id) => id,
        Err(e) => {
            return Err(e);
        },
    };
    let mut res = match reservation {
        Some(res) => res,
        None => {
            return Err(AppError::ReservationNotFound);
        },
    };
    let stay_detail = extension_daily_detail(&res, business_date);
    let revenue_allocations = extension_revenue_allocations(&res, business_date);
    let next_check_out = next_day(business_date).unwrap();
    res.check_out = next_check_out;
    Ok(
        DepartureExtension {
            reservation: res,
            room_id,
            extension_night: business_date,
            stay_detail,
            revenue_allocations,
        },
    )
}

/// The stay details dated in `[from, to)` (by day number), in order.
pub open spec fn details_within(s: Seq<DailyStayDetail>, from: int, to: int) -> Seq<
    DailyStayDetail,
>
    decreases s.len(),
{
    if s.len() == 0 {
        Seq::empty()
    } else {
        let rest = details_within(s.drop_last(), from, to);
        let d = s.last().service_date.day_of();
        if from <= d && d < to {
            rest.push(s.last())
        } else {
            rest
        }
    }
}

/// The revenue allocations dated in `[from, to)` (by day number), in order.
pub open spec fn allocations_within(s: Seq<DailyRevenueAllocation>, from: int, to: int) -> Seq<
    DailyRevenueAllocation,
>
    decreases s.len(),
{
    if s.len() == 0 {
        Seq::empty()
    } else {
        let rest = allocations_within(s.drop_last(), from, to);
        let d = s.last().service_date.day_of();
        if from <= d && d < to {
            rest.push(s.last())
        } else {
            rest
        }
    }
}

fn keep_details_within(details: Vec<DailyStayDetail>, from: Date, to: Date) -> (r: Vec<
    DailyStayDetail,
>)
    ensures
        r@ == details_within(details@, from.day_of(), to.day_of()),
{
    let ghost given = details@;
    let mut rest = details;
    let mut out: Vec<DailyStayDetail> = Vec::new();
    let ghost mut k: int = 0;
    assert(given.take(0) =~= Seq::<DailyStayDetail>::empty());
    assert(given.skip(0) =~= given);
    while rest.len() > 0
        invariant
            0 <= k <= given.len(),
            rest@ == given.skip(k),
            out@ == details_within(given.take(k), from.day_of(), to.day_of()),
        decreases rest@.len(),
    {
        let d = rest.remove(0);
        proof {
            assert(given.take(k + 1).drop_last() =~= given.take(k));
            assert(given.take(k + 1).last() == given[k]);
            assert(rest@ =~= given.skip(k + 1));
            k = k + 1;
        }
        if !d.service_date.is_before(&from) && d.service_date.is_before(&to) {
            out.push(d);
        }
    }
    assert(given.take(given.len() as int) =~= given);
    out
}

fn keep_allocations_within(allocations: Vec<DailyRevenueAllocation>, from: Date, to: Date) -> (r: Vec<
    DailyRevenueAllocation,
>)
    ensures
        r@ == allocations_within(allocations@, from.day_of(), to.day_of()),
{
    let ghost given = allocations@;
    let mut rest = allocations;
    let mut out: Vec<DailyRevenueAllocation> = Vec::new();
    let ghost mut k: int = 0;
    assert(given.take(0) =~= Seq::<DailyRevenueAllocation>::empty());
    assert(given.skip(0) =~= given);
    while rest.len() > 0
        invariant
            0 <= k <= given.len(),
            rest@ == given.skip(k),
            out@ == allocations_within(given.take(k), from.day_of(), to.day_of()),
        decreases rest@.len(),
    {
        let a = rest.remove(0);
        proof {
            assert(given.take(k + 1).drop_last() =~= given.take(k));
            assert(given.take(k + 1).last() == given[k]);
            assert(rest@ =~= given.skip(k + 1));
            k = k + 1;
        }
        if !a.service_date.is_before(&from) && a.service_date.is_before(&to) {
            out.push(a);
        }
    }
    assert(given.take(given.len() as int) =~= given);
    out
}

/// Deferring, during the night audit, the arrival of a confirmed multi-night reservation due
/// on the closing business date: it now arrives the day after, and the stay details and
/// revenue allocations outside the new stay are dropped.
pub fn defer_arrival(business_date: Date, reservation: Option<Reservation>) -> (r: Result<
    Reservation,
    AppError,
>)
    requires
        business_date.day_of() < MAX_DAY,
    ensures
        match reservation {
            None => r == Err::<Reservation, AppError>(AppError::ReservationNotFound),
            Some(res) => if res.reservation_status != ReservationStatus::Confirmed
                || res.stay_status != Some(StayStatus::Confirmed) {
                r == Err::<Reservation, AppError>(AppError::DeferRequiresConfirmedArrival)
            } else if res.check_in != business_date {
                r == Err::<Reservation, AppError>(AppError::DeferCheckInMismatch)
            } else if res.check_out.day_of() <= business_date.day_of() + 1 {
                r == Err::<Reservation, AppError>(AppError::DeferRequiresMultiNightStay)
            } else {
                r matches Ok(x) && {
                    &&& x.check_in.day_of() == business_date.day_of() + 1
                    &&& x.daily_stay_details@ == details_within(
                        res.daily_stay_details@,
                        business_date.day_of() + 1,
                        res.check_out.day_of(),
                    )
                    &&& x.daily_revenue_allocations@ == allocations_within(
                        res.daily_revenue_allocations@,
                        business_date.day_of() + 1,
                        res.check_out.day_of(),
                    )
                    &&& x.id == res.id
                    &&& x.external_id == res.external_id
                    &&& x.reservation_status == res.reservation_status
                    &&& x.stay_status == res.stay_status
                    &&& x.check_out == res.check_out
                    &&& x.room_id == res.room_id
                    &&& x.room_class == res.room_class
                    &&& x.plan_code == res.plan_code
                    &&& x.package_breakdowns == res.package_breakdowns
                }
            },
        },
{
    let next = next_day(business_date).unwrap();
    let res = match reservation {
        Some(res) => res,
        None => {
            return Err(AppError::ReservationNotFound);
        },
    };
    let arriving = match res.stay_status {
        Some(StayStatus::Confirmed) => true,
        _ => false,
    };
    if res.reservation_status != ReservationStatus::Confirmed || !arriving {
        return Err(AppError::DeferRequiresConfirmedArrival);
    }
    proof {
        lemma_same_day_is_equal(res.check_in, business_date);
    }
    if !res.check_in.same_day(&business_date) {
        return Err(AppError::DeferCheckInMismatch);
    }
    if !next.is_before(&res.check_out) {
        return Err(AppError::DeferRequiresMultiNightStay);
    }
    let check_out = res.check_out;
    let Reservation {
        id,
        external_id,
        reservation_status,
        stay_status,
        check_in: _,
        check_out: _,
        room_id,
        room_class,
        plan_code,
        daily_stay_details,
        daily_revenue_allocations,
        package_breakdowns,
    } = res;
    let kept_details = keep_details_within(daily_stay_details, next, check_out);
    let kept_allocations = keep_allocations_within(daily_revenue_allocations, next, check_out);
    Ok(
        Reservation {
            id,
            external_id,
            reservation_status,
            stay_status,
            check_in: next,
            check_out,
            room_id,
            room_class,
            plan_code,
            daily_stay_details: kept_details,
            daily_revenue_allocations: kept_allocations,
            package_breakdowns,
        },
    )
}

/// Whether a room charge is to be posted for a deferred arrival's first night, and where.
///
/// None is posted where one is already posted for the night or where the room revenue is not
/// positive; the reservation must have an open folio unless a charge is already posted.
pub fn retained_room_charge(
    already_posted: bool,
    open_folio_id: Option<u128>,
    room_revenue: Money,
) -> (r: Result<Option<(u128, Money)>, AppError>)
    ensures
        already_posted ==> r == Ok::<Option<(u128, Money)>, AppError>(None),
        !already_posted && open_folio_id is None ==> r == Err::<Option<(u128, Money)>, AppError>(
            AppError::OpenFolioNotFound,
        ),
        !already_posted && open_folio_id is Some ==> r == Ok::<Option<(u128, Money)>, AppError>(
            if is_positive(room_revenue) {
                Some((open_folio_id->0, room_revenue))
            } else {
                None
            },
        ),
{
    if already_posted {
        return Ok(None);
    }
    let folio_id = match open_folio_id {
        Some(id) => id,
        None => {
            return Err(AppError::OpenFolioNotFound);
        },
    };
    if !amount_is_positive(room_revenue) {
        return Ok(None);
    }
    Ok(Some((folio_id, room_revenue)))
}

/// Whether a reservation is to be marked no-show during the night audit: it must be due to
/// arrive by the closing business date, and be either a no-show already (marked again) or a
/// confirmed arrival that has not come.
pub fn check_no_show_arrival(business_date: Date, reservation: Option<&Reservation>) -> (r: Result<
    (),
    AppError,
>)
    ensures
        match reservation {
            None => r == Err::<(), AppError>(AppError::ReservationNotFound),
            Some(res) => if res.check_in.day_of() > business_date.day_of() {
                r == Err::<(), AppError>(AppError::NoShowNotDue)
            } else if res.reservation_status == ReservationStatus::NoShow {
                r is Ok
            } else if res.reservation_status != ReservationStatus::Confirmed || res.stay_status
                != Some(StayStatus::Confirmed) {
                r == Err::<(), AppError>(AppError::NoShowRequiresConfirmedArrival)
            } else {
                r is Ok
            },
        },
{
    let res = match reservation {
        Some(res) => res,
        None => {
            return Err(AppError::ReservationNotFound);
        },
    };
    if res.check_in.is_after(&business_date) {
        return Err(AppError::NoShowNotDue);
    }
    if res.reservation_status == ReservationStatus::NoShow {
        return Ok(());
    }
    let arriving = match res.stay_status {
        Some(StayStatus::Confirmed) => true,
        _ => false,
    };
    if res.reservation_status != ReservationStatus::Confirmed || !arriving {
        return Err(AppError::NoShowRequiresConfirmedArrival);
    }
    Ok(())
}

/// The stay details kept for a deferred arrival all lie within the new stay.
pub proof fn lemma_kept_details_within_stay(s: Seq<DailyStayDetail>, from: int, to: int)
    ensures
        forall|j: int|
            0 <= j < details_within(s, from, to).len() ==> from <= (#[trigger] details_within(
                s,
                from,
                to,
            )[j]).service_date.day_of() < to,
    decreases s.len(),
{
    if s.len() > 0 {
        lemma_kept_details_within_stay(s.drop_last(), from, to);
        let rest = details_within(s.drop_last(), from, to);
        let all = details_within(s, from, to);
        assert forall|j: int| 0 <= j < all.len() implies from <= (#[trigger] all[j]).service_date.day_of() < to by {
            if j < rest.len() {
                assert(all[j] == rest[j]);
            }
        }
    }
}

/// The revenue allocations kept for a deferred arrival all lie within the new stay.
pub proof fn lemma_kept_allocations_within_stay(s: Seq<DailyRevenueAllocation>, from: int, to: int)
    ensures
        forall|j: int|
            0 <= j < allocations_within(s, from, to).len() ==> from <= (
            #[trigger] allocations_within(s, from, to)[j]).service_date.day_of() < to,
    decreases s.len(),
{
    if s.len() > 0 {
        lemma_kept_allocations_within_stay(s.drop_last(), from, to);
    }
}

/// A deferral keeps every revenue allocation dated within the new stay, whatever its
/// category: each allocation of `s` dated in `[from, to)` is among those kept.
pub proof fn lemma_allocations_within_stay_are_kept(
    s: Seq<DailyRevenueAllocation>,
    from: int,
    to: int,
)
    ensures
        forall|i: int|
            0 <= i < s.len() && from <= (#[trigger] s[i]).service_date.day_of() < to ==> exists|
                k: int,
            |
                0 <= k < allocations_within(s, from, to).len() && allocations_within(s, from, to)[k]
                    == s[i],
    decreases s.len(),
{
    if s.len() > 0 {
        let init = s.drop_last();
        lemma_allocations_within_stay_are_kept(init, from, to);
        let rest = allocations_within(init, from, to);
        let all = allocations_within(s, from, to);
        assert forall|i: int|
            0 <= i < s.len() && from <= (#[trigger] s[i]).service_date.day_of() < to implies exists|
                k: int,
            |
                0 <= k < all.len() && all[k] == s[i] by {
            if i < s.len() - 1 {
                assert(s[i] == init[i]);
                let k = choose|k: int| 0 <= k < rest.len() && rest[k] == init[i];
                assert(all[k] == rest[k]);
            } else {
                assert(all[rest.len() as int] == s[i]);
            }
        }
    }
}

/// A deferral keeps every stay detail dated within the new stay: each detail of `s` dated in
/// `[from, to)` is among those kept.
pub proof fn lemma_details_within_stay_are_kept(s: Seq<DailyStayDetail>, from: int, to: int)
    ensures
        forall|i: int|
            0 <= i < s.len() && from <= (#[trigger] s[i]).service_date.day_of() < to ==> exists|
                k: int,
            |
                0 <= k < details_within(s, from, to).len() && details_within(s, from, to)[k]
                    == s[i],
    decreases s.len(),
{
    if s.len() > 0 {
        let init = s.drop_last();
        lemma_details_within_stay_are_kept(init, from, to);
        let rest = details_within(init, from, to);
        let all = details_within(s, from, to);
        assert forall|i: int|
            0 <= i < s.len() && from <= (#[trigger] s[i]).service_date.day_of() < to implies exists|
                k: int,
            |
                0 <= k < all.len() && all[k] == s[i] by {
            if i < s.len() - 1 {
                assert(s[i] == init[i]);
                let k = choose|k: int| 0 <= k < rest.len() && rest[k] == init[i];
                assert(all[k] == rest[k]);
            } else {
                assert(all[rest.len() as int] == s[i]);
            }
        }
    }
}

/// `c` is `a` moved to the night `night`: every field but the date is `a`'s.
pub open spec fn moved_to_night(c: DailyRevenueAllocation, a: DailyRevenueAllocation, night: Date) -> bool {
    &&& c.service_date == night
    &&& c.package_code == a.package_code
    &&& c.revenue_category == a.revenue_category
    &&& c.department_code == a.department_code
    &&& c.account_code == a.account_code
    &&& c.amount == a.amount
}

/// Some allocation of `allocations`, dated on day `from_day`, is `c` moved to `night`.
pub open spec fn copied_from(
    c: DailyRevenueAllocation,
    allocations: Seq<DailyRevenueAllocation>,
    from_day: int,
    night: Date,
) -> bool {
    exists|i: int|
        0 <= i < allocations.len() && (#[trigger] allocations[i]).service_date.day_of() == from_day
            && moved_to_night(c, allocations[i], night)
}

/// The allocations copied for an extension night are the allocations of the night copied
/// from, each with every field but the date kept (package, category, department, account,
/// amount), and every allocation of that night is copied.
pub proof fn lemma_copied_allocations_keep_their_fields(
    allocations: Seq<DailyRevenueAllocation>,
    from_day: int,
    night: Date,
)
    ensures
        forall|k: int|
            0 <= k < copied_allocations(allocations, from_day, night).len() ==> copied_from(
                #[trigger] copied_allocations(allocations, from_day, night)[k],
                allocations,
                from_day,
                night,
            ),
        forall|i: int|
            0 <= i < allocations.len() && (#[trigger] allocations[i]).service_date.day_of()
                == from_day ==> exists|k: int|
                0 <= k < copied_allocations(allocations, from_day, night).len() && moved_to_night(
                    copied_allocations(allocations, from_day, night)[k],
                    allocations[i],
                    night,
                ),
    decreases allocations.len(),
{
    if allocations.len() > 0 {
        let init = allocations.drop_last();
        lemma_copied_allocations_keep_their_fields(init, from_day, night);
        let rest = copied_allocations(init, from_day, night);
        let all = copied_allocations(allocations, from_day, night);
        assert forall|k: int| 0 <= k < all.len() implies copied_from(
            #[trigger] all[k],
            allocations,
            from_day,
            night,
        ) by {
            if k < rest.len() {
                assert(all[k] == rest[k]);
                assert(copied_from(rest[k], init, from_day, night));
                let i = choose|i: int|
                    0 <= i < init.len() && (#[trigger] init[i]).service_date.day_of() == from_day
                        && moved_to_night(rest[k], init[i], night);
                assert(allocations[i] == init[i]);
            } else {
                let j = allocations.len() - 1;
                assert(allocations[j] == allocations.last());
            }
        }
        assert forall|i: int|
            0 <= i < allocations.len() && (#[trigger] allocations[i]).service_date.day_of()
                == from_day implies exists|k: int|
            0 <= k < all.len() && moved_to_night(all[k], allocations[i], night) by {
            if i < allocations.len() - 1 {
                assert(allocations[i] == init[i]);
                let k = choose|k: int| 0 <= k < rest.len() && moved_to_night(rest[k], init[i], night);
                assert(all[k] == rest[k]);
            } else {
                assert(all[rest.len() as int] == DailyRevenueAllocation {
                    service_date: night,
                    ..allocations.last()
                });
            }
        }
    }
}

} // verus!
