use backend::date::{Date, MAX_DAY, MIN_DAY};
use backend::stay::{normalize, StayInput};
use backend::text::{
    is_blank_str, normalize_optional_input, normalize_optional_string, normalize_required_string,
};
use chrono::Datelike;

fn day(y: i32, mo: u32, d: u32) -> Date {
    Date::from_day_number(chrono::NaiveDate::from_ymd_opt(y, mo, d).unwrap().num_days_from_ce())
        .unwrap()
}

fn s(x: &str) -> String {
    x.to_string()
}

#[test]
fn blank_text() {
    assert!(is_blank_str(""));
    assert!(is_blank_str(" \t\r\n"));
    assert!(is_blank_str("\u{3000}\u{a0}"));
    assert!(!is_blank_str(" a "));
}

#[test]
fn optional_text_is_trimmed_or_dropped() {
    assert_eq!(normalize_optional_string(s("  hello world  ")), Some(s("hello world")));
    assert_eq!(normalize_optional_string(s("\u{3000}memo\u{2003}")), Some(s("memo")));
    assert_eq!(normalize_optional_string(s("   ")), None);
    assert_eq!(normalize_optional_input(None), None);
    assert_eq!(normalize_optional_input(Some(s(" x"))), Some(s("x")));
    assert_eq!(normalize_optional_input(Some(s("\n"))), None);
}

#[test]
fn required_text_is_trimmed_or_refused() {
    assert_eq!(normalize_required_string(s(" code "), 7u8), Ok(s("code")));
    assert_eq!(normalize_required_string(s("  "), 7u8), Err(7u8));
    // Normalising twice gives what normalising once gave.
    let once = normalize_required_string(s("\t a b \n"), 0u8).unwrap();
    let twice = normalize_required_string(once.clone(), 0u8).unwrap();
    assert_eq!(once, twice);
}

#[test]
fn stay_from_check_in_and_nights() {
    let (a, b) = normalize(StayInput::CheckInAndNights {
        check_in: day(2024, 2, 27),
        nights: 3,
        room_class: s("DBL"),
    })
    .unwrap();
    assert_eq!(a, day(2024, 2, 27));
    assert_eq!(b, day(2024, 3, 1));
    let (a, b) = normalize(StayInput::CheckInAndNights {
        check_in: day(2024, 5, 1),
        nights: 0,
        room_class: s("DBL"),
    })
    .unwrap();
    assert_eq!(a, b);
}

#[test]
fn stay_from_check_out_and_nights() {
    let (a, b) = normalize(StayInput::CheckOutAndNights {
        check_out: day(2023, 3, 2),
        nights: 2,
        room_class: s("TWN"),
    })
    .unwrap();
    assert_eq!(a, day(2023, 2, 28));
    assert_eq!(b, day(2023, 3, 2));
}

#[test]
fn stay_from_both_dates() {
    let (a, b) = normalize(StayInput::CheckInAndCheckOut {
        check_in: day(2024, 1, 1),
        check_out: day(2024, 1, 5),
        room_class: s("SGL"),
    })
    .unwrap();
    assert_eq!((a, b), (day(2024, 1, 1), day(2024, 1, 5)));
    assert_eq!(
        normalize(StayInput::CheckInAndCheckOut {
            check_in: day(2024, 1, 6),
            check_out: day(2024, 1, 5),
            room_class: s("SGL"),
        })
        .unwrap_err(),
        "check_in must be <= check_out"
    );
}

#[test]
fn stay_refusals() {
    assert_eq!(
        normalize(StayInput::CheckInAndNights { check_in: day(2024, 1, 1), nights: -1, room_class: s("") })
            .unwrap_err(),
        "nights must be >= 0"
    );
    assert_eq!(
        normalize(StayInput::CheckOutAndNights { check_out: day(2024, 1, 1), nights: -2, room_class: s("") })
            .unwrap_err(),
        "nights must be >= 0"
    );
    let last = Date::from_day_number(MAX_DAY).unwrap();
    let first = Date::from_day_number(MIN_DAY).unwrap();
    assert_eq!(
        normalize(StayInput::CheckInAndNights { check_in: last, nights: 1, room_class: s("") })
            .unwrap_err(),
        "date overflow"
    );
    assert_eq!(
        normalize(StayInput::CheckOutAndNights { check_out: first, nights: 1, room_class: s("") })
            .unwrap_err(),
        "date overflow"
    );
    let (a, b) =
        normalize(StayInput::CheckInAndNights { check_in: last, nights: 0, room_class: s("") }).unwrap();
    assert_eq!((a, b), (last, last));
}

#[test]
fn the_three_forms_agree() {
    let check_in = day(2024, 12, 30);
    let check_out = day(2025, 1, 2);
    let x = normalize(StayInput::CheckInAndNights { check_in, nights: 3, room_class: s("A") }).unwrap();
    let y = normalize(StayInput::CheckOutAndNights { check_out, nights: 3, room_class: s("B") }).unwrap();
    let z = normalize(StayInput::CheckInAndCheckOut { check_in, check_out, room_class: s("C") }).unwrap();
    assert_eq!(x, y);
    assert_eq!(y, z);
}

#[test]
fn the_room_class_of_a_stay() {
    let input = StayInput::CheckOutAndNights { check_out: day(2024, 1, 1), nights: 1, room_class: s("SUITE") };
    assert_eq!(input.room_class(), "SUITE");
}
