//! Reservations, as far as the decisions of this library read them.
use vstd::prelude::*;

use crate::date::Date;
use crate::money::Money;

verus! {

/// The commercial status of a reservation.
#[derive(Clone, Copy, Debug, PartialEq, Eq, Structural)]
pub enum ReservationStatus {
    Confirmed,
    Cancelled,
    NoShow,
}

/// Where the guest of a reservation is in the stay.
#[derive(Clone, Copy, Debug, PartialEq, Eq, Structural)]
pub enum StayStatus {
    Confirmed,
    CheckedIn,
    CheckedOut,
    NoShow,
}

/// The revenue class of a daily allocation or of a package.
#[derive(Clone, Copy, Debug, PartialEq, Eq, Structural)]
pub enum RevenueCategory {
    Room,
    Other,
}

/// Who stays, in which room class and under which plan, on one night.
#[derive(Clone, Debug)]
pub struct DailyStayDetail {
    pub service_date: Date,
    pub room_class: String,
    pub plan_code: String,
    pub adult_count: u32,
    pub child_count: u32,
    pub sleep_sharing_child_count: u32,
}

/// The revenue booked for one package on one night.
#[derive(Clone, Debug)]
pub struct DailyRevenueAllocation {
    pub service_date: Date,
    pub package_code: String,
    pub revenue_category: RevenueCategory,
    pub department_code: Option<String>,
    pub account_code: Option<String>,
    pub amount: Money,
}

/// The per-night price of one package of the booked plan.
#[derive(Clone, Debug)]
pub struct PackageBreakdown {
    pub package_code: String,
    pub revenue_category: RevenueCategory,
    pub amount: Money,
}

/// A reservation.
#[derive(Clone, Debug)]
pub struct Reservation {
    pub id: u128,
    pub external_id: Option<String>,
    pub reservation_status: ReservationStatus,
    pub stay_status: Option<StayStatus>,
    pub check_in: Date,
    pub check_out: Date,
    pub room_id: Option<u128>,
    pub room_class: String,
    pub plan_code: String,
    pub daily_stay_details: Vec<DailyStayDetail>,
    pub daily_revenue_allocations: Vec<DailyRevenueAllocation>,
    pub package_breakdowns: Vec<PackageBreakdown>,
}

} // verus!
