use backend::date::Date;
use backend::error::AppError;
use backend::money::Money;
use backend::reservation::{
    DailyRevenueAllocation, DailyStayDetail, PackageBreakdown, Reservation, ReservationStatus,
    RevenueCategory, StayStatus,
};
use backend::stay_changes::{
    check_no_show_arrival, defer_arrival, extend_departure, extension_daily_detail,
    extension_revenue_allocations, retained_room_charge,
};

const D0: i32 = 739000;

fn m(mantissa: i128, scale: u32) -> Money {
    Money::new(mantissa, scale).unwrap()
}

fn day(offset: i32) -> Date {
    Date::from_day_number(D0 + offset).unwrap()
}

fn detail(offset: i32, adults: u32) -> DailyStayDetail {
    DailyStayDetail {
        service_date: day(offset),
        room_class: "TWN".to_string(),
        plan_code: "RO".to_string(),
        adult_count: adults,
        child_count: 1,
        sleep_sharing_child_count: 0,
    }
}

fn allocation(offset: i32, code: &str, amount: Money) -> DailyRevenueAllocation {
    DailyRevenueAllocation {
        service_date: day(offset),
        package_code: code.to_string(),
        revenue_category: RevenueCategory::Room,
        department_code: Some("D1".to_string()),
        account_code: Some("A1".to_string()),
        amount,
    }
}

fn reservation(check_in: i32, check_out: i32) -> Reservation {
    Reservation {
        id: 42,
        external_id: None,
        reservation_status: ReservationStatus::Confirmed,
        stay_status: Some(StayStatus::CheckedIn),
        check_in: day(check_in),
        check_out: day(check_out),
        room_id: Some(301),
        room_class: "DBL".to_string(),
        plan_code: "BB".to_string(),
        daily_stay_details: vec![],
        daily_revenue_allocations: vec![],
        package_breakdowns: vec![
            PackageBreakdown {
                package_code: "ROOM".to_string(),
                revenue_category: RevenueCategory::Room,
                amount: m(9000, 2),
            },
            PackageBreakdown {
                package_code: "BFST".to_string(),
                revenue_category: RevenueCategory::Other,
                amount: m(1500, 2),
            },
        ],
    }
}

#[test]
fn extension_detail_copies_the_last_earlier_night() {
    let mut r = reservation(-2, 0);
    r.daily_stay_details = vec![detail(-2, 2), detail(-1, 3), detail(5, 4)];
    let d = extension_daily_detail(&r, day(0)).unwrap();
    assert_eq!(d.service_date, day(0));
    assert_eq!(d.adult_count, 3);
    assert_eq!(d.child_count, 1);
    assert_eq!(d.room_class, "TWN");
    assert_eq!(d.plan_code, "RO");
}

#[test]
fn extension_detail_defaults_and_existing_nights() {
    let r = reservation(-2, 0);
    let d = extension_daily_detail(&r, day(0)).unwrap();
    assert_eq!((d.adult_count, d.child_count, d.sleep_sharing_child_count), (1, 0, 0));
    assert_eq!(d.room_class, "DBL");
    assert_eq!(d.plan_code, "BB");
    let mut r = reservation(-2, 0);
    r.daily_stay_details = vec![detail(0, 2)];
    assert!(extension_daily_detail(&r, day(0)).is_none());
}

#[test]
fn extension_allocations_copy_the_latest_earlier_night() {
    let mut r = reservation(-2, 0);
    r.daily_revenue_allocations = vec![
        allocation(-2, "ROOM", m(80, 0)),
        allocation(-1, "ROOM", m(85, 0)),
        allocation(-2, "BFST", m(15, 0)),
        allocation(-1, "BFST", m(16, 0)),
        allocation(3, "ROOM", m(99, 0)),
    ];
    let a = extension_revenue_allocations(&r, day(0));
    assert_eq!(a.len(), 2);
    assert_eq!(a[0].package_code, "ROOM");
    assert_eq!(a[0].amount.mantissa(), 85);
    assert_eq!(a[0].service_date, day(0));
    assert_eq!(a[0].department_code, Some("D1".to_string()));
    assert_eq!(a[1].package_code, "BFST");
    assert_eq!(a[1].amount.mantissa(), 16);
}

#[test]
fn extension_allocations_fall_back_to_the_packages() {
    let r = reservation(-2, 0);
    let a = extension_revenue_allocations(&r, day(0));
    assert_eq!(a.len(), 2);
    assert_eq!(a[0].package_code, "ROOM");
    assert_eq!(a[0].revenue_category, RevenueCategory::Room);
    assert_eq!((a[0].amount.mantissa(), a[0].amount.scale()), (9000, 2));
    assert_eq!(a[0].department_code, None);
    assert_eq!(a[1].package_code, "BFST");
    assert_eq!(a[1].revenue_category, RevenueCategory::Other);
    let mut r = reservation(-2, 0);
    r.daily_revenue_allocations = vec![allocation(0, "ROOM", m(80, 0))];
    assert!(extension_revenue_allocations(&r, day(0)).is_empty());
}

#[test]
fn extending_a_due_departure() {
    let x = extend_departure(day(0), Some(reservation(-2, 0))).unwrap();
    assert_eq!(x.reservation.check_out, day(1));
    assert_eq!(x.reservation.check_in, day(-2));
    assert_eq!(x.reservation.id, 42);
    assert_eq!(x.room_id, 301);
    assert_eq!(x.extension_night, day(0));
    assert_eq!(x.stay_detail.unwrap().adult_count, 1);
    assert_eq!(x.revenue_allocations.len(), 2);
    // An overdue departure also moves to the day after the business date.
    let x = extend_departure(day(0), Some(reservation(-3, -1))).unwrap();
    assert_eq!(x.reservation.check_out, day(1));
}

#[test]
fn extension_refusals_in_order() {
    assert_eq!(extend_departure(day(0), None).unwrap_err(), AppError::ReservationNotFound);
    let mut r = reservation(-2, 0);
    r.stay_status = Some(StayStatus::Confirmed);
    r.room_id = None;
    assert_eq!(extend_departure(day(0), Some(r)).unwrap_err(), AppError::ExtendRequiresCheckedIn);
    let mut r = reservation(-2, 0);
    r.reservation_status = ReservationStatus::Cancelled;
    assert_eq!(extend_departure(day(0), Some(r)).unwrap_err(), AppError::ExtendRequiresCheckedIn);
    let mut r = reservation(-2, 1);
    r.room_id = None;
    assert_eq!(extend_departure(day(0), Some(r)).unwrap_err(), AppError::ExtensionNotDue);
    let mut r = reservation(-2, 0);
    r.room_id = None;
    assert_eq!(extend_departure(day(0), Some(r)).unwrap_err(), AppError::RoomNotAssigned);
}

fn arriving(check_in: i32, check_out: i32) -> Reservation {
    let mut r = reservation(check_in, check_out);
    r.stay_status = Some(StayStatus::Confirmed);
    r
}

#[test]
fn deferring_an_arrival_drops_the_first_night() {
    let mut r = arriving(0, 3);
    r.daily_stay_details = vec![detail(0, 2), detail(1, 2), detail(2, 3), detail(3, 1)];
    r.daily_revenue_allocations =
        vec![allocation(0, "ROOM", m(1, 0)), allocation(1, "ROOM", m(2, 0)), allocation(2, "ROOM", m(3, 0))];
    let x = defer_arrival(day(0), Some(r)).unwrap();
    assert_eq!(x.check_in, day(1));
    assert_eq!(x.check_out, day(3));
    let nights: Vec<Date> = x.daily_stay_details.iter().map(|d| d.service_date).collect();
    assert_eq!(nights, vec![day(1), day(2)]);
    let amounts: Vec<i128> = x.daily_revenue_allocations.iter().map(|a| a.amount.mantissa()).collect();
    assert_eq!(amounts, vec![2, 3]);
    assert_eq!(x.id, 42);
    assert_eq!(x.package_breakdowns.len(), 2);
}

#[test]
fn deferral_refusals_in_order() {
    assert_eq!(defer_arrival(day(0), None).unwrap_err(), AppError::ReservationNotFound);
    assert_eq!(
        defer_arrival(day(0), Some(reservation(0, 3))).unwrap_err(),
        AppError::DeferRequiresConfirmedArrival
    );
    assert_eq!(
        defer_arrival(day(0), Some(arriving(-1, 3))).unwrap_err(),
        AppError::DeferCheckInMismatch
    );
    assert_eq!(
        defer_arrival(day(0), Some(arriving(0, 1))).unwrap_err(),
        AppError::DeferRequiresMultiNightStay
    );
}

#[test]
fn the_room_charge_kept_for_a_no_show() {
    assert!(retained_room_charge(true, None, m(5, 0)).unwrap().is_none());
    assert_eq!(retained_room_charge(false, None, m(5, 0)).unwrap_err(), AppError::OpenFolioNotFound);
    let kept = retained_room_charge(false, Some(8), m(500, 2)).unwrap().unwrap();
    assert_eq!(kept.0, 8);
    assert_eq!((kept.1.mantissa(), kept.1.scale()), (500, 2));
    assert!(retained_room_charge(false, Some(8), m(0, 2)).unwrap().is_none());
}

#[test]
fn marking_a_no_show() {
    assert_eq!(check_no_show_arrival(day(0), None).unwrap_err(), AppError::ReservationNotFound);
    assert_eq!(
        check_no_show_arrival(day(0), Some(&arriving(1, 3))).unwrap_err(),
        AppError::NoShowNotDue
    );
    assert!(check_no_show_arrival(day(0), Some(&arriving(0, 3))).is_ok());
    assert!(check_no_show_arrival(day(0), Some(&arriving(-1, 3))).is_ok());
    let mut already = arriving(0, 3);
    already.reservation_status = ReservationStatus::NoShow;
    already.stay_status = Some(StayStatus::NoShow);
    assert!(check_no_show_arrival(day(0), Some(&already)).is_ok());
    assert_eq!(
        check_no_show_arrival(day(0), Some(&reservation(0, 3))).unwrap_err(),
        AppError::NoShowRequiresConfirmedArrival
    );
}

#[test]
fn extension_checks_come_before_the_next_day_is_needed() {
    let last = Date::from_day_number(backend::date::MAX_DAY).unwrap();
    let mut r = reservation(-2, 0);
    r.room_id = None;
    r.check_out = last;
    assert_eq!(extend_departure(last, Some(r.clone())).unwrap_err(), AppError::RoomNotAssigned);
    assert_eq!(backend::stay_changes::check_departure_extension(last, Some(&r)).unwrap_err(), AppError::RoomNotAssigned);
    assert_eq!(backend::stay_changes::check_departure_extension(day(0), Some(&reservation(-2, 0))).unwrap(), 301);
    assert_eq!(backend::stay_changes::check_departure_extension(day(0), None).unwrap_err(), AppError::ReservationNotFound);
}
