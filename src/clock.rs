use vstd::prelude::*;

verus! {

/// Whether chrono can represent the instant `secs` whole seconds after the
/// Unix epoch.
pub uninterp spec fn representable_instant(secs: int) -> bool;

/// Relies on chrono's `Utc::now` and `DateTime::timestamp`: the current time
/// in whole seconds since the Unix epoch. `Utc::now` panics on a clock that
/// stands before the epoch, so what it returns is never negative.
#[verifier::external_body]
pub(crate) fn now_seconds() -> (r: i64)
    ensures
        r >= 0,
{
    chrono::Utc::now().timestamp()
}

/// Relies on chrono's `DateTime::from_timestamp`, which returns `None` for a
/// number of seconds out of its range: whether `secs` names an instant.
#[verifier::external_body]
pub(crate) fn instant_representable(secs: i64) -> (r: bool)
    ensures
        r == representable_instant(secs as int),
{
    chrono::DateTime::from_timestamp(secs, 0).is_some()
}

} // verus!
