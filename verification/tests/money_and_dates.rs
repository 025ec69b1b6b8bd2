use backend::date::{Date, MAX_DAY, MIN_DAY};
use backend::money::{amount_is_positive, amount_is_zero, Money, MAX_MANTISSA};
use chrono::Datelike;

fn m(mantissa: i128, scale: u32) -> Money {
    Money::new(mantissa, scale).unwrap()
}

fn day(y: i32, mo: u32, d: u32) -> Date {
    Date::from_day_number(chrono::NaiveDate::from_ymd_opt(y, mo, d).unwrap().num_days_from_ce())
        .unwrap()
}

#[test]
fn money_new_rejects_out_of_range_parts() {
    assert!(Money::new(MAX_MANTISSA, 28).is_some());
    assert!(Money::new(MAX_MANTISSA + 1, 0).is_none());
    assert!(Money::new(-MAX_MANTISSA - 1, 0).is_none());
    assert!(Money::new(1, 29).is_none());
    let x = m(-12345, 3);
    assert_eq!(x.mantissa(), -12345);
    assert_eq!(x.scale(), 3);
}

#[test]
fn positive_and_zero_follow_the_sign() {
    assert!(amount_is_positive(m(1, 28)));
    assert!(!amount_is_positive(m(0, 5)));
    assert!(!amount_is_positive(m(-3, 0)));
    assert!(amount_is_zero(m(0, 7)));
    assert!(!amount_is_zero(m(1, 7)));
}

#[test]
fn date_comparisons() {
    let a = day(2024, 5, 1);
    let b = day(2024, 5, 2);
    assert!(a.is_before(&b));
    assert!(b.is_after(&a));
    assert!(a.same_day(&day(2024, 5, 1)));
    assert!(!a.same_day(&b));
}

#[test]
fn day_numbers_round_trip() {
    let d = day(2024, 2, 29);
    assert_eq!(d.day_number(), chrono::NaiveDate::from_ymd_opt(2024, 2, 29).unwrap().num_days_from_ce());
    assert!(Date::from_day_number(MAX_DAY).is_some());
    assert!(Date::from_day_number(MIN_DAY).is_some());
    assert!(Date::from_day_number(MAX_DAY + 1).is_none());
    assert!(Date::from_day_number(MIN_DAY - 1).is_none());
    assert_eq!(Date::from_day_number(MAX_DAY).unwrap().day_number(), MAX_DAY);
}
