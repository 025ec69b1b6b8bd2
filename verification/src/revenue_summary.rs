//! Monthly revenue summaries.
use vstd::prelude::*;
use vstd::utf8::encode_utf8;

use crate::error::AppError;

verus! {

/// The check of a requested month: it must be written in seven bytes (`YYYY-MM`).
pub fn check_year_month(year_month: &String) -> (r: Result<(), AppError>)
    ensures
        encode_utf8(year_month@).len() as usize != 7 ==> r == Err::<(), AppError>(
            AppError::YearMonthMalformed,
        ),
        encode_utf8(year_month@).len() as usize == 7 ==> r is Ok,
{
    if year_month.as_str().len() != 7 {
        return Err(AppError::YearMonthMalformed);
    }
    Ok(())
}

} // verus!
