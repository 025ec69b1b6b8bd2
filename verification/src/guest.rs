//! Guest preferences.
use vstd::prelude::*;

use crate::error::AppError;
use crate::text::{is_blank, is_blank_str};

verus! {

/// The check before recording a guest preference: the guest exists and a value is given.
pub fn check_guest_preference(guest_found: bool, value: &str) -> (r: Result<(), AppError>)
    ensures
        !guest_found ==> r == Err::<(), AppError>(AppError::GuestNotFound),
        guest_found && is_blank(value@) ==> r == Err::<(), AppError>(
            AppError::PreferenceValueRequired,
        ),
        guest_found && !is_blank(value@) ==> r is Ok,
{
    if !guest_found {
        return Err(AppError::GuestNotFound);
    }
    if is_blank_str(value) {
        return Err(AppError::PreferenceValueRequired);
    }
    Ok(())
}

} // verus!
