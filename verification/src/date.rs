//! Calendar dates.
//!
//! A date is held as its day number in the proleptic Gregorian calendar, counted the way
//! `chrono::Datelike::num_days_from_ce` counts it (0001-01-01 is day 1).  Only the days that
//! `chrono::NaiveDate` can represent are dates.  Earlier/later is the order of day numbers.
use vstd::prelude::*;

verus! {

/// Day number of `chrono::NaiveDate::MIN` (-262143-01-01).
pub const MIN_DAY: i32 = -95746129i32;

/// Day number of `chrono::NaiveDate::MAX` (+262142-12-31).
pub const MAX_DAY: i32 = 95745399i32;

/// A calendar date.
#[derive(Clone, Copy, Debug, PartialEq, Eq, Structural)]
pub struct Date {
    day: i32,
}

impl Date {
    #[verifier::type_invariant]
    spec fn in_range(self) -> bool {
        MIN_DAY <= self.day <= MAX_DAY
    }

    /// The day number (0001-01-01 is day 1).
    pub closed spec fn day_of(self) -> int {
        self.day as int
    }

    /// The date with the given day number, where `chrono` can represent it.
    pub fn from_day_number(day: i32) -> (r: Option<Date>)
        ensures
            r is Some <==> MIN_DAY <= day <= MAX_DAY,
            r matches Some(d) ==> d.day_of() == day,
    {
        if MIN_DAY <= day && day <= MAX_DAY {
            Some(Date { day })
        } else {
            None
        }
    }

    pub fn day_number(&self) -> (r: i32)
        ensures
            r == self.day_of(),
            MIN_DAY <= r <= MAX_DAY,
    {
        proof {
            use_type_invariant(self);
        }
        self.day
    }

    /// `self` is strictly before `other`.
    pub fn is_before(&self, other: &Date) -> (r: bool)
        ensures
            r == (self.day_of() < other.day_of()),
    {
        self.day < other.day
    }

    pub fn is_after(&self, other: &Date) -> (r: bool)
        ensures
            r == (self.day_of() > other.day_of()),
    {
        self.day > other.day
    }

    pub fn same_day(&self, other: &Date) -> (r: bool)
        ensures
            r == (self.day_of() == other.day_of()),
            r == (*self == *other),
    {
        self.day == other.day
    }
}

/// Two dates are equal exactly when their day numbers are.
pub proof fn lemma_same_day_is_equal(a: Date, b: Date)
    ensures
        (a.day_of() == b.day_of()) == (a == b),
{
}

/// `date + days` with `chrono::NaiveDate::checked_add_days`.
///
/// Trusted: the documentation says the result is `None` exactly when the resulting date would
/// be out of range; otherwise it is the date `days` later.
#[verifier::external_body]
pub(crate) fn checked_add_days(date: Date, days: u64) -> (r: Option<Date>)
    ensures
        r is Some <==> date.day_of() + days <= MAX_DAY,
        r matches Some(d) ==> d.day_of() == date.day_of() + days,
{
    chrono::NaiveDate::from_num_days_from_ce_opt(date.day)
        .and_then(|d| d.checked_add_days(chrono::Days::new(days)))
        .map(|d| Date { day: chrono::Datelike::num_days_from_ce(&d) })
}

/// `date - days` with `chrono::NaiveDate::checked_sub_days`.
///
/// Trusted: the documentation says the result is `None` exactly when the resulting date would
/// be out of range; otherwise it is the date `days` earlier.
#[verifier::external_body]
pub(crate) fn checked_sub_days(date: Date, days: u64) -> (r: Option<Date>)
    ensures
        r is Some <==> date.day_of() - days >= MIN_DAY,
        r matches Some(d) ==> d.day_of() == date.day_of() - days,
{
    chrono::NaiveDate::from_num_days_from_ce_opt(date.day)
        .and_then(|d| d.checked_sub_days(chrono::Days::new(days)))
        .map(|d| Date { day: chrono::Datelike::num_days_from_ce(&d) })
}

/// The next day, with `chrono::NaiveDate::succ_opt`.
///
/// Trusted: `succ_opt` is `None` only for `NaiveDate::MAX`, and otherwise the following day.
#[verifier::external_body]
pub(crate) fn next_day(date: Date) -> (r: Option<Date>)
    ensures
        r is Some <==> date.day_of() < MAX_DAY,
        r matches Some(d) ==> d.day_of() == date.day_of() + 1,
{
    chrono::NaiveDate::from_num_days_from_ce_opt(date.day)
        .and_then(|d| d.succ_opt())
        .map(|d| Date { day: chrono::Datelike::num_days_from_ce(&d) })
}

/// The text `chrono` writes for the date with this day number (`Display` of `NaiveDate`,
/// ISO 8601 `YYYY-MM-DD`).
pub uninterp spec fn naive_date_text(day_number: i32) -> Seq<char>;

/// The date as text, with `NaiveDate`'s `Display`.
///
/// Trusted: `to_string` on a `chrono::NaiveDate` depends on the date alone; the text is named
/// `naive_date_text`.
#[verifier::external_body]
pub(crate) fn date_text(date: Date) -> (r: String)
    ensures
        r@ == naive_date_text(date.day_of() as i32),
{
    chrono::NaiveDate::from_num_days_from_ce_opt(date.day).map(|d| d.to_string()).unwrap_or_default()
}

/// The text `chrono` writes for the date with this day number under the format `%Y-%m`.
pub uninterp spec fn naive_date_month_text(day_number: i32) -> Seq<char>;

/// The year and month of the date as text, with `NaiveDate::format("%Y-%m")`.
///
/// Trusted: formatting a `chrono::NaiveDate` with a fixed format depends on the date alone;
/// the text is named `naive_date_month_text`.
#[verifier::external_body]
pub(crate) fn date_month_text(date: Date) -> (r: String)
    ensures
        r@ == naive_date_month_text(date.day_of() as i32),
{
    chrono::NaiveDate::from_num_days_from_ce_opt(date.day)
        .map(|d| d.format("%Y-%m").to_string())
        .unwrap_or_default()
}

} // verus!
