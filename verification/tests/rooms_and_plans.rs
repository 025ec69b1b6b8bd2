use backend::date::Date;
use backend::error::AppError;
use backend::guest::check_guest_preference;
use backend::rate_plan::{
    set_package_activation, set_rate_plan_activation, validate_package,
    validate_package_assignment, validate_package_update, validate_rate_plan, PackageDefinition,
    RatePlanDefinition, RatePlanPackage,
};
use backend::reservation::{Reservation, ReservationStatus, StayStatus};
use backend::revenue_summary::check_year_month;
use backend::room::{
    build_assignment_visibility, group_reservations_by_room_id, take_room_assignment,
    update_room, update_room_activation, Room, RoomAssignmentVisibility, RoomUpdate,
};

fn s(x: &str) -> String {
    x.to_string()
}

fn room() -> Room<f64> {
    Room {
        id: 1,
        room_no: s("101"),
        room_class: s("DBL"),
        capacity: Some(2),
        area_sqm: 20.5,
        is_physical: true,
        is_active: true,
    }
}

fn no_change() -> RoomUpdate<f64> {
    RoomUpdate { room_no: None, room_class: None, capacity: None, area_sqm: None, is_physical: None }
}

#[test]
fn updating_a_room() {
    assert_eq!(update_room(None, no_change()).unwrap_err(), AppError::RoomNotFound);
    let r = update_room(Some(room()), no_change()).unwrap();
    assert_eq!((r.room_no.as_str(), r.capacity, r.area_sqm), ("101", Some(2), 20.5));
    let r = update_room(
        Some(room()),
        RoomUpdate {
            room_no: Some(s("102")),
            room_class: Some(s("TWN")),
            capacity: Some(None),
            area_sqm: Some(30.0),
            is_physical: None,
        },
    )
    .unwrap();
    assert_eq!(r.room_no, "102");
    assert_eq!(r.room_class, "TWN");
    assert_eq!(r.capacity, None);
    assert_eq!(r.area_sqm, 30.0);
    assert!(r.is_physical);
    assert_eq!(r.id, 1);
}

#[test]
fn a_virtual_room_has_no_capacity() {
    let mut u = no_change();
    u.capacity = Some(Some(4));
    u.is_physical = Some(false);
    let r = update_room(Some(room()), u).unwrap();
    assert!(!r.is_physical);
    assert_eq!(r.capacity, None);
    let mut u = no_change();
    u.capacity = Some(Some(4));
    u.is_physical = Some(true);
    assert_eq!(update_room(Some(room()), u).unwrap().capacity, Some(4));
}

#[test]
fn room_activation() {
    assert_eq!(update_room_activation::<f64>(None, false).unwrap_err(), AppError::RoomNotFound);
    let r = update_room_activation(Some(room()), false).unwrap();
    assert!(!r.is_active);
    assert_eq!(r.room_no, "101");
}

fn reservation(id: u128, room_id: Option<u128>, status: ReservationStatus, stay: Option<StayStatus>) -> Reservation {
    let d = Date::from_day_number(739000).unwrap();
    Reservation {
        id,
        external_id: None,
        reservation_status: status,
        stay_status: stay,
        check_in: d,
        check_out: d,
        room_id,
        room_class: s("DBL"),
        plan_code: s("BB"),
        daily_stay_details: vec![],
        daily_revenue_allocations: vec![],
        package_breakdowns: vec![],
    }
}

fn shown(v: &RoomAssignmentVisibility) -> (&'static str, u128) {
    match v {
        RoomAssignmentVisibility::Assigned(r) => ("assigned", r.id),
        RoomAssignmentVisibility::NoShowWarning(r) => ("no_show", r.id),
        RoomAssignmentVisibility::Unassigned => ("unassigned", 0),
    }
}

#[test]
fn room_assignment_visibility() {
    let list = vec![
        reservation(1, Some(5), ReservationStatus::Cancelled, Some(StayStatus::Confirmed)),
        reservation(2, Some(5), ReservationStatus::Confirmed, Some(StayStatus::CheckedOut)),
        reservation(3, Some(5), ReservationStatus::NoShow, Some(StayStatus::NoShow)),
        reservation(4, Some(5), ReservationStatus::Confirmed, Some(StayStatus::CheckedIn)),
        reservation(5, Some(5), ReservationStatus::Confirmed, Some(StayStatus::Confirmed)),
    ];
    assert_eq!(shown(&build_assignment_visibility(list)), ("assigned", 4));
    let list = vec![
        reservation(1, Some(5), ReservationStatus::Confirmed, None),
        reservation(3, Some(5), ReservationStatus::Confirmed, Some(StayStatus::NoShow)),
        reservation(6, Some(5), ReservationStatus::NoShow, None),
    ];
    assert_eq!(shown(&build_assignment_visibility(list)), ("no_show", 3));
    let list = vec![reservation(1, Some(5), ReservationStatus::Cancelled, Some(StayStatus::NoShow))];
    assert_eq!(shown(&build_assignment_visibility(list)), ("unassigned", 0));
    assert_eq!(shown(&build_assignment_visibility(vec![])), ("unassigned", 0));
}

#[test]
fn grouping_reservations_by_room() {
    let list = vec![
        reservation(1, Some(5), ReservationStatus::Confirmed, Some(StayStatus::CheckedOut)),
        reservation(2, None, ReservationStatus::Confirmed, Some(StayStatus::Confirmed)),
        reservation(3, Some(6), ReservationStatus::Confirmed, Some(StayStatus::Confirmed)),
        reservation(4, Some(5), ReservationStatus::Confirmed, Some(StayStatus::CheckedIn)),
    ];
    let mut grouped = group_reservations_by_room_id(list);
    assert_eq!(grouped.len(), 2);
    let ids: Vec<u128> = grouped[&5].iter().map(|r| r.id).collect();
    assert_eq!(ids, vec![1, 4]);
    assert_eq!(shown(&take_room_assignment(&mut grouped, 5)), ("assigned", 4));
    assert!(!grouped.contains_key(&5));
    assert_eq!(shown(&take_room_assignment(&mut grouped, 5)), ("unassigned", 0));
    assert_eq!(shown(&take_room_assignment(&mut grouped, 6)), ("assigned", 3));
    assert!(grouped.is_empty());
}

fn package(code: &str, name: &str, dept: &str, account: &str) -> PackageDefinition {
    PackageDefinition {
        package_code: s(code),
        display_name: s(name),
        department_code: s(dept),
        account_code: s(account),
        is_active: true,
    }
}

#[test]
fn package_validation() {
    assert!(validate_package(&package("BF", "Breakfast", "FB", "4000")).is_ok());
    assert_eq!(validate_package(&package(" ", "", "", "")).unwrap_err(), AppError::PackageCodeEmpty);
    assert_eq!(
        validate_package(&package("BF", "\t", "", "")).unwrap_err(),
        AppError::PackageDisplayNameEmpty
    );
    assert_eq!(
        validate_package(&package("BF", "B", "", "")).unwrap_err(),
        AppError::DepartmentCodeEmpty
    );
    assert_eq!(
        validate_package(&package("BF", "B", "FB", "  ")).unwrap_err(),
        AppError::AccountCodeEmpty
    );
}

#[test]
fn package_update_validation() {
    assert_eq!(
        validate_package_update(false, &package("BF", "B", "FB", "4")).unwrap_err(),
        AppError::PackageNotFound
    );
    assert!(validate_package_update(true, &package("", "B", "FB", "4")).is_ok());
    assert_eq!(
        validate_package_update(true, &package("BF", "", "FB", "4")).unwrap_err(),
        AppError::PackageDisplayNameEmpty
    );
    assert_eq!(
        validate_package_update(true, &package("BF", "B", " ", "4")).unwrap_err(),
        AppError::DepartmentCodeEmpty
    );
    assert_eq!(
        validate_package_update(true, &package("BF", "B", "FB", "")).unwrap_err(),
        AppError::AccountCodeEmpty
    );
}

#[test]
fn rate_plan_validation() {
    let plan = |code: &str, name: &str| RatePlanDefinition {
        plan_code: s(code),
        display_name: s(name),
        is_active: true,
    };
    assert!(validate_rate_plan(&plan("BB", "Bed and breakfast")).is_ok());
    assert_eq!(validate_rate_plan(&plan("", "")).unwrap_err(), AppError::PlanCodeEmpty);
    assert_eq!(validate_rate_plan(&plan("BB", " ")).unwrap_err(), AppError::PlanDisplayNameEmpty);
}

#[test]
fn package_assignment_validation() {
    let a = |plan: &str, pkg: &str, order: i32| RatePlanPackage {
        plan_code: s(plan),
        package_code: s(pkg),
        sort_order: order,
    };
    assert!(validate_package_assignment(&a("BB", "BF", 0), Some(true), Some(true)).is_ok());
    assert_eq!(
        validate_package_assignment(&a("", "", -1), None, None).unwrap_err(),
        AppError::PlanCodeEmpty
    );
    assert_eq!(
        validate_package_assignment(&a("BB", " ", -1), None, None).unwrap_err(),
        AppError::PackageCodeEmpty
    );
    assert_eq!(
        validate_package_assignment(&a("BB", "BF", -1), None, None).unwrap_err(),
        AppError::SortOrderNegative
    );
    assert_eq!(
        validate_package_assignment(&a("BB", "BF", 1), None, None).unwrap_err(),
        AppError::RatePlanNotFound
    );
    assert_eq!(
        validate_package_assignment(&a("BB", "BF", 1), Some(false), None).unwrap_err(),
        AppError::RatePlanInactive
    );
    assert_eq!(
        validate_package_assignment(&a("BB", "BF", 1), Some(true), None).unwrap_err(),
        AppError::PackageNotFound
    );
    assert_eq!(
        validate_package_assignment(&a("BB", "BF", 1), Some(true), Some(false)).unwrap_err(),
        AppError::PackageInactive
    );
}

#[test]
fn activation_of_packages_and_plans() {
    assert_eq!(set_package_activation(None, true).unwrap_err(), AppError::PackageNotFound);
    let p = set_package_activation(Some(package("BF", "B", "FB", "4")), false).unwrap();
    assert!(!p.is_active);
    assert_eq!(p.package_code, "BF");
    assert_eq!(set_rate_plan_activation(None, true).unwrap_err(), AppError::RatePlanNotFound);
    let plan = RatePlanDefinition { plan_code: s("BB"), display_name: s("B"), is_active: false };
    let p = set_rate_plan_activation(Some(plan), true).unwrap();
    assert!(p.is_active);
    assert_eq!(p.plan_code, "BB");
}

#[test]
fn guest_preferences() {
    assert_eq!(check_guest_preference(false, "x").unwrap_err(), AppError::GuestNotFound);
    assert_eq!(check_guest_preference(true, "  ").unwrap_err(), AppError::PreferenceValueRequired);
    assert!(check_guest_preference(true, "quiet room").is_ok());
}

#[test]
fn year_month_shape() {
    assert!(check_year_month(&s("2024-05")).is_ok());
    assert_eq!(check_year_month(&s("2024-5")).unwrap_err(), AppError::YearMonthMalformed);
    assert_eq!(check_year_month(&s("2024-05-01")).unwrap_err(), AppError::YearMonthMalformed);
    // Seven bytes, whatever they are.
    assert!(check_year_month(&s("abcdefg")).is_ok());
    assert_eq!(check_year_month(&s("2024-0\u{e9}")).unwrap_err(), AppError::YearMonthMalformed);
}

#[test]
fn the_last_listed_daily_state_of_a_room() {
    let states = vec![(1u128, 'a'), (2u128, 'b'), (1u128, 'c')];
    assert_eq!(backend::room::last_daily_state(&states, 1), Some('c'));
    assert_eq!(backend::room::last_daily_state(&states, 2), Some('b'));
    assert_eq!(backend::room::last_daily_state(&states, 3), None);
}
