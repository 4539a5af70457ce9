//! The count of days between two dates, taken from the `chrono` crate.

use crate::gregorian::GregorianDate;
use vstd::prelude::*;

verus! {

/// The number of days from `from` to `to`, negative where `to` comes first.
///
/// Both dates are handed to `chrono::NaiveDate::from_ymd_opt`, the second is
/// measured against the first with `chrono::NaiveDate::signed_duration_since`,
/// and `chrono::TimeDelta::num_days` reads the whole days of the answer.
/// Nothing of this is proved here. The contract takes from chrono's
/// documentation that `from_ymd_opt` accepts every day that exists from
/// 1 January -262143 to 31 December 262142, and that the duration between two
/// dates is the exact number of days between them in the proleptic Gregorian
/// calendar.
#[verifier::external_body]
pub(crate) fn days_between(from: &GregorianDate, to: &GregorianDate) -> (days: Option<i64>)
    requires
        from@.is_supported(),
        to@.is_supported(),
    ensures
        days is Some,
        days.unwrap() == to@.day_number() - from@.day_number(),
{
    let start = chrono::NaiveDate::from_ymd_opt(from.year, from.month, from.day)?;
    let end = chrono::NaiveDate::from_ymd_opt(to.year, to.month, to.day)?;
    Some(end.signed_duration_since(start).num_days())
}

} // verus!
