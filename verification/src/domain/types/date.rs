use vstd::prelude::*;

verus! {

/// A calendar date, `chrono::NaiveDate`. The library carries dates
/// through and never looks inside one.
#[verifier::external_type_specification]
#[verifier::external_body]
pub struct ExNaiveDate(chrono::NaiveDate);

/// The date of a year, a month and a day of the calendar, if there is
/// such a day.
pub uninterp spec fn date_of_ymd(year: i32, month: u32, day: u32) -> Option<chrono::NaiveDate>;

/// Calls `chrono::NaiveDate::from_ymd_opt`. Trusted: that the date
/// depends on the three numbers alone, and that there is a date for each
/// of the first twenty-eight days of each of the twelve months of every
/// year from -262143 to 262142, the years that a date can hold.
#[verifier::external_body]
pub(crate) fn date_from_ymd(year: i32, month: u32, day: u32) -> (date: Option<chrono::NaiveDate>)
    ensures
        date == date_of_ymd(year, month, day),
        -262143 <= year <= 262142 && 1 <= month <= 12 && 1 <= day <= 28 ==> date is Some,
{
    chrono::NaiveDate::from_ymd_opt(year, month, day)
}

} // verus!
