use std::time::{Duration, SystemTime, UNIX_EPOCH};
use vstd::prelude::*;

use crate::error::PurchaseError;

verus! {

#[verifier::external_type_specification]
#[verifier::external_body]
pub struct ExSystemTime(SystemTime);

/// Relies on SystemTime::now: the current wall-clock time. Nothing is
/// promised of its value.
#[verifier::external_body]
fn system_now() -> SystemTime {
    SystemTime::now()
}

/// Relies on SystemTime::duration_since, measured from UNIX_EPOCH: the time
/// elapsed since the epoch, or None where the clock stands before it.
#[verifier::external_body]
fn since_unix_epoch(t: SystemTime) -> Option<Duration> {
    t.duration_since(UNIX_EPOCH).ok()
}

/// Relies on Duration::as_millis: the whole milliseconds of a duration.
#[verifier::external_body]
fn whole_millis(d: Duration) -> u128 {
    d.as_millis()
}

/// The timestamp `now_millis + offset_millis`, or `TimeOverflow` where that
/// does not fit in a `u128` millisecond timestamp.
pub fn deadline_from(now_millis: u128, offset_millis: u128) -> (r: Result<u128, PurchaseError>)
    ensures
        now_millis + offset_millis <= u128::MAX ==> r == Ok::<u128, PurchaseError>(
            (now_millis + offset_millis) as u128,
        ),
        now_millis + offset_millis > u128::MAX ==> r == Err::<u128, PurchaseError>(
            PurchaseError::TimeOverflow,
        ),
        r is Ok ==> r->Ok_0 >= now_millis,
{
    match now_millis.checked_add(offset_millis) {
        Some(t) => Ok(t),
        None => Err(PurchaseError::TimeOverflow),
    }
}

/// A deadline `future_millis` milliseconds after the current time, in
/// milliseconds since the Unix epoch. Fails with `TimeOverflow` where the sum
/// does not fit, or where the clock stands before the epoch.
pub fn get_valid_timestamp(future_millis: u128) -> (r: Result<u128, PurchaseError>)
    ensures
        r is Ok ==> r->Ok_0 >= future_millis,
        r is Err ==> r->Err_0 == PurchaseError::TimeOverflow,
{
    match since_unix_epoch(system_now()) {
        Some(elapsed) => deadline_from(whole_millis(elapsed), future_millis),
        None => Err(PurchaseError::TimeOverflow),
    }
}

} // verus!
