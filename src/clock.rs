use vstd::prelude::*;

verus! {

/// The current wall-clock time as whole seconds since the Unix epoch.
///
/// Relies on `chrono::Utc::now` followed by `DateTime::timestamp`: `now` takes
/// the system time as a duration since the epoch and builds a `DateTime` from
/// its whole seconds, so the seconds that come back are never negative. What
/// else it returns depends on the machine's clock, so nothing more is stated.
#[verifier::external_body]
pub(crate) fn now_epoch_seconds() -> (r: i64)
    ensures
        r >= 0,
{
    chrono::Utc::now().timestamp()
}

} // verus!
