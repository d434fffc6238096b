//! What this crate takes on trust about the time types of the standard library.
//!
//! Two kinds of value are opaque to the verifier: a `core::time::Duration` and a
//! `std::time::SystemTime`. Each gets a name for the one number that it stands for, and every
//! item below says, over those names, what a function of the standard library returns.
//! Nothing in this module is proved.

use vstd::prelude::*;

verus! {

/// The total number of nanoseconds that a `core::time::Duration` holds.
pub uninterp spec fn nanos_of(d: core::time::Duration) -> nat;

/// The whole milliseconds that a `core::time::Duration` holds.
pub open spec fn whole_millis(d: core::time::Duration) -> nat {
    nanos_of(d) / 1_000_000
}

/// `core::time::Duration::from_millis`: the duration of exactly `millis` milliseconds.
pub assume_specification[ core::time::Duration::from_millis ](millis: u64) -> (d:
    core::time::Duration)
    ensures
        nanos_of(d) == millis * 1_000_000,
;

/// `core::time::Duration::as_millis`: the whole milliseconds that the duration holds; what is
/// left over below one millisecond is dropped.
pub assume_specification[ core::time::Duration::as_millis ](d: &core::time::Duration) -> (millis:
    u128)
    ensures
        millis == whole_millis(*d),
;

/// The host's wall-clock type.
#[verifier::external_type_specification]
#[verifier::external_body]
pub struct ExHostTime(std::time::SystemTime);

/// Where a host time lies: the nanoseconds from `std::time::UNIX_EPOCH` to it, negative for a
/// time before the epoch.
pub uninterp spec fn epoch_nanos(t: std::time::SystemTime) -> int;

/// `std::time::SystemTime::now`: reads the host clock, on a target that has one. Nothing is
/// claimed about the reading: the clock may be set to any time, and may go back.
pub assume_specification[ std::time::SystemTime::now ]() -> (t: std::time::SystemTime);

/// `std::time::SystemTime::duration_since`, measured from `std::time::UNIX_EPOCH`: `Ok` with the
/// distance for a time at or after the epoch, `Err` with the distance for a time before it.
#[verifier::external_body]
pub(crate) fn since_unix_epoch(t: std::time::SystemTime) -> (r: Result<
    core::time::Duration,
    core::time::Duration,
>)
    ensures
        match r {
            Ok(after) => epoch_nanos(t) == nanos_of(after),
            Err(before) => epoch_nanos(t) == -nanos_of(before) && nanos_of(before) > 0,
        },
{
    match t.duration_since(std::time::UNIX_EPOCH) {
        Ok(after) => Ok(after),
        Err(e) => Err(e.duration()),
    }
}

/// `std::time::SystemTime::checked_add` on `std::time::UNIX_EPOCH`: the host time `d` after the
/// epoch, or `None` where the host cannot hold it. Host clocks differ in what they keep below a
/// millisecond, so the place of the result is claimed for whole milliseconds only.
#[verifier::external_body]
pub(crate) fn after_unix_epoch(d: core::time::Duration) -> (r: Option<std::time::SystemTime>)
    ensures
        r matches Some(t) ==> (nanos_of(d) % 1_000_000 == 0 ==> epoch_nanos(t) == nanos_of(d)),
{
    std::time::UNIX_EPOCH.checked_add(d)
}

/// `std::time::SystemTime::checked_sub` on `std::time::UNIX_EPOCH`: the host time `d` before the
/// epoch, or `None` where the host cannot hold it. As for the addition, the place of the result
/// is claimed for whole milliseconds only.
#[verifier::external_body]
pub(crate) fn before_unix_epoch(d: core::time::Duration) -> (r: Option<std::time::SystemTime>)
    ensures
        r matches Some(t) ==> (nanos_of(d) % 1_000_000 == 0 ==> epoch_nanos(t) == -nanos_of(d)),
{
    std::time::UNIX_EPOCH.checked_sub(d)
}

} // verus!
