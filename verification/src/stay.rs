//! The three ways a stay can be entered, and their normal form (check-in, check-out).
use vstd::prelude::*;
#[allow(unused_imports)]
use vstd::string::StringExecFns;

use crate::date::{checked_add_days, checked_sub_days, Date, MAX_DAY, MIN_DAY};

verus! {

/// A stay as the guest or the clerk enters it.
#[derive(Clone, Debug)]
pub enum StayInput {
    CheckInAndNights { check_in: Date, nights: i64, room_class: String },
    CheckInAndCheckOut { check_in: Date, check_out: Date, room_class: String },
    CheckOutAndNights { check_out: Date, nights: i64, room_class: String },
}

/// Why a stay cannot be normalised.
#[derive(Clone, Copy, Debug, PartialEq, Eq, Structural)]
pub enum StayInputError {
    NegativeNights,
    CheckInAfterCheckOut,
    DateOverflow,
}

impl StayInputError {
    pub open spec fn spec_message(self) -> Seq<char> {
        match self {
            StayInputError::NegativeNights => "nights must be >= 0"@,
            StayInputError::CheckInAfterCheckOut => "check_in must be <= check_out"@,
            StayInputError::DateOverflow => "date overflow"@,
        }
    }
}

impl StayInput {
    pub open spec fn spec_room_class(&self) -> Seq<char> {
        match self {
            StayInput::CheckInAndNights { room_class, .. } => room_class@,
            StayInput::CheckInAndCheckOut { room_class, .. } => room_class@,
            StayInput::CheckOutAndNights { room_class, .. } => room_class@,
        }
    }

    /// The room class the stay asks for.
    pub fn room_class(&self) -> (r: String)
        ensures
            r@ == self.spec_room_class(),
    {
        match self {
            StayInput::CheckInAndNights { room_class, .. } => room_class.clone(),
            StayInput::CheckInAndCheckOut { room_class, .. } => room_class.clone(),
            StayInput::CheckOutAndNights { room_class, .. } => room_class.clone(),
        }
    }
}

/// The day numbers of check-in and check-out that a stay stands for, or why there are none.
pub open spec fn normalized_days(input: StayInput) -> Result<(int, int), StayInputError> {
    match input {
        StayInput::CheckInAndNights { check_in, nights, .. } => {
            if nights < 0 {
                Err(StayInputError::NegativeNights)
            } else if check_in.day_of() + nights > MAX_DAY {
                Err(StayInputError::DateOverflow)
            } else {
                Ok((check_in.day_of(), check_in.day_of() + nights))
            }
        },
        StayInput::CheckInAndCheckOut { check_in, check_out, .. } => {
            if check_in.day_of() > check_out.day_of() {
                Err(StayInputError::CheckInAfterCheckOut)
            } else {
                Ok((check_in.day_of(), check_out.day_of()))
            }
        },
        StayInput::CheckOutAndNights { check_out, nights, .. } => {
            if nights < 0 {
                Err(StayInputError::NegativeNights)
            } else if check_out.day_of() - nights < MIN_DAY {
                Err(StayInputError::DateOverflow)
            } else {
                Ok((check_out.day_of() - nights, check_out.day_of()))
            }
        },
    }
}

/// Turns a stay into its check-in and check-out dates.
pub fn normalize(input: StayInput) -> (r: Result<(Date, Date), String>)
    ensures
        match normalized_days(input) {
            Ok((a, b)) => r matches Ok((x, y)) && x.day_of() == a && y.day_of() == b,
            Err(e) => r matches Err(m) && m@ == e.spec_message(),
        },
{
    match input {
        StayInput::CheckInAndNights { check_in, nights, .. } => {
            if nights < 0 {
                return Err(String::from_str("nights must be >= 0"));
            }
            match checked_add_days(check_in, nights as u64) {
                Some(check_out) => Ok((check_in, check_out)),
                None => Err(String::from_str("date overflow")),
            }
        },
        StayInput::CheckInAndCheckOut { check_in, check_out, .. } => {
            if check_in.is_after(&check_out) {
                return Err(String::from_str("check_in must be <= check_out"));
            }
            Ok((check_in, check_out))
        },
        StayInput::CheckOutAndNights { check_out, nights, .. } => {
            if nights < 0 {
                return Err(String::from_str("nights must be >= 0"));
            }
            match checked_sub_days(check_out, nights as u64) {
                Some(check_in) => Ok((check_in, check_out)),
                None => Err(String::from_str("date overflow")),
            }
        },
    }
}

/// A normalised stay never ends before it starts, and the number of nights entered is the
/// distance between check-in and check-out.
pub proof fn lemma_normalized_stay_is_ordered(input: StayInput)
    ensures
        normalized_days(input) matches Ok((a, b)) ==> a <= b,
        input matches StayInput::CheckInAndNights { nights, .. } ==> (normalized_days(input) matches Ok(
            (a, b),
        ) ==> b - a == nights),
        input matches StayInput::CheckOutAndNights { nights, .. } ==> (normalized_days(input) matches Ok(
            (a, b),
        ) ==> b - a == nights),
{
}

/// The three forms agree: a stay entered as check-in and nights, as check-out and nights, or
/// as check-in and check-out normalises to the same dates whenever they describe the same stay.
pub proof fn lemma_stay_forms_agree(
    check_in: Date,
    check_out: Date,
    nights: i64,
    class_a: String,
    class_b: String,
    class_c: String,
)
    requires
        nights >= 0,
        check_out.day_of() == check_in.day_of() + nights,
        MIN_DAY <= check_in.day_of(),
        check_out.day_of() <= MAX_DAY,
    ensures
        normalized_days(StayInput::CheckInAndNights { check_in, nights, room_class: class_a })
            == Ok::<(int, int), StayInputError>((check_in.day_of(), check_out.day_of())),
        normalized_days(StayInput::CheckOutAndNights { check_out, nights, room_class: class_b })
            == Ok::<(int, int), StayInputError>((check_in.day_of(), check_out.day_of())),
        normalized_days(
            StayInput::CheckInAndCheckOut { check_in, check_out, room_class: class_c },
        ) == Ok::<(int, int), StayInputError>((check_in.day_of(), check_out.day_of())),
{
}

} // verus!
