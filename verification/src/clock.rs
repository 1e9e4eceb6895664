//! The only places where the library asks the clock: thin wrappers
//! over chrono. Their results depend on the time of the call, so the
//! contracts promise nothing; every caller states what holds whatever
//! came back.

use vstd::prelude::*;

verus! {

/// Relies on `chrono::Local::now`, `chrono::NaiveDate::checked_sub_days`,
/// `chrono::NaiveDate::checked_add_days` and `chrono::NaiveDate::format`:
/// today's local date moved back and forward by the given number of
/// days, each formatted `%Y-%m-%d`; `None` when a move leaves the
/// supported calendar range.
#[verifier::external_body]
pub(crate) fn local_date_range(back_days: u64, forward_days: u64) -> (r: Option<(String, String)>) {
    let today = chrono::Local::now().date_naive();
    let start = match today.checked_sub_days(chrono::Days::new(back_days)) {
        Some(d) => d,
        None => {
            return None;
        },
    };
    let end = match today.checked_add_days(chrono::Days::new(forward_days)) {
        Some(d) => d,
        None => {
            return None;
        },
    };
    Some((start.format("%Y-%m-%d").to_string(), end.format("%Y-%m-%d").to_string()))
}

/// Relies on `chrono::Utc::now` and `chrono::DateTime::timestamp`: the
/// current Unix time in whole seconds.
#[verifier::external_body]
pub(crate) fn unix_now() -> i64 {
    chrono::Utc::now().timestamp()
}

} // verus!
