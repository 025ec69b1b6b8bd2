//! Decision logic of a hotel property-management back end: billing settlement, folios,
//! invoices, the night audit, reservation stays and notes, rooms and rate plans.
pub mod money;
pub mod date;
pub mod error;
pub mod text;
pub mod stay;
pub mod settlement;
pub mod reservation;
pub mod folio;
pub mod invoice;
pub mod night_audit;
pub mod stay_changes;
pub mod reservation_notes;
pub mod room;
pub mod rate_plan;
pub mod guest;
pub mod revenue_summary;
pub mod audit;
pub mod changes;
pub mod projection;
pub mod billing_audit;
