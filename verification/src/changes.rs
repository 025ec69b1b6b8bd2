//! The field changes recorded with an operation.
use vstd::prelude::*;
#[allow(unused_imports)]
use vstd::string::StringExecFns;

use crate::date::{date_text, naive_date_text};
use crate::reservation::Reservation;

verus! {

/// One changed field: its name and its value before and after, as text.
#[derive(Clone, Debug)]
pub struct ChangedField {
    pub field_name: String,
    pub before_value: Option<String>,
    pub after_value: Option<String>,
}

pub open spec fn text_of(value: Option<String>) -> Option<Seq<char>> {
    match value {
        Some(v) => Some(v@),
        None => None,
    }
}

/// The change recorded when a departure is extended: the check-out date.
pub fn extend_changed_fields(before: &Reservation, after: &Reservation) -> (r: Vec<ChangedField>)
    ensures
        r@.len() == 1,
        r@[0].field_name@ == "check_out"@,
        text_of(r@[0].before_value) == Some(naive_date_text(before.check_out.day_of() as i32)),
        text_of(r@[0].after_value) == Some(naive_date_text(after.check_out.day_of() as i32)),
{
    let mut fields: Vec<ChangedField> = Vec::new();
    fields.push(
        ChangedField {
            field_name: String::from_str("check_out"),
            before_value: Some(date_text(before.check_out)),
            after_value: Some(date_text(after.check_out)),
        },
    );
    fields
}

/// The change recorded when an arrival is deferred: the check-in date.
pub fn defer_changed_fields(before: &Reservation, after: &Reservation) -> (r: Vec<ChangedField>)
    ensures
        r@.len() == 1,
        r@[0].field_name@ == "check_in"@,
        text_of(r@[0].before_value) == Some(naive_date_text(before.check_in.day_of() as i32)),
        text_of(r@[0].after_value) == Some(naive_date_text(after.check_in.day_of() as i32)),
{
    let mut fields: Vec<ChangedField> = Vec::new();
    fields.push(
        ChangedField {
            field_name: String::from_str("check_in"),
            before_value: Some(date_text(before.check_in)),
            after_value: Some(date_text(after.check_in)),
        },
    );
    fields
}

} // verus!
