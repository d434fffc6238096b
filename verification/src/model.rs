//! The arithmetic of instants on plain integers.
//!
//! An instant is modelled by its count, the signed number of milliseconds from the epoch, and
//! an offset by its magnitude in milliseconds. The contracts of the executable functions are
//! stated over the functions of this module.

use vstd::prelude::*;
use crate::host::nanos_of;
use crate::system_time::{SystemTime, SystemTimeError};

verus! {

/// The count of an instant that may be absent.
pub open spec fn count_of(t: Option<SystemTime>) -> Option<int> {
    match t {
        Some(t) => Some(t@),
        None => None,
    }
}

/// The count that lies `millis` milliseconds after `count`. There is none where `millis` itself
/// is more than the largest count, or where the sum is.
pub open spec fn checked_add(count: int, millis: nat) -> Option<int> {
    if millis <= i64::MAX && count + millis <= i64::MAX {
        Some(count + millis)
    } else {
        None
    }
}

/// The count that lies `millis` milliseconds before `count`. There is none where `millis`
/// itself is more than the largest count, or where the difference is less than the smallest.
pub open spec fn checked_sub(count: int, millis: nat) -> Option<int> {
    if millis <= i64::MAX && count - millis >= i64::MIN {
        Some(count - millis)
    } else {
        None
    }
}

/// The whole milliseconds in `nanos` nanoseconds, counted toward zero: what is left over
/// below a millisecond is dropped, before the epoch as after it.
pub open spec fn millis_toward_zero(nanos: int) -> int {
    if nanos >= 0 {
        nanos / 1_000_000
    } else {
        -((-nanos) / 1_000_000)
    }
}

/// The count of the instant that lies `nanos` nanoseconds from the epoch: its whole
/// milliseconds, held to the nearest count where an `i64` cannot hold them.
pub open spec fn count_at(nanos: int) -> int {
    let millis = millis_toward_zero(nanos);
    if millis > i64::MAX {
        i64::MAX as int
    } else if millis < i64::MIN {
        i64::MIN as int
    } else {
        millis
    }
}

/// Whether `r` is what measuring from the count `earlier` to the count `later` gives: `Ok` with
/// their distance where `later` is not before `earlier`, `Err` with their distance where it is.
pub open spec fn is_duration_since(
    later: int,
    earlier: int,
    r: Result<core::time::Duration, SystemTimeError>,
) -> bool {
    match r {
        Ok(d) => later >= earlier && nanos_of(d) == (later - earlier) * 1_000_000,
        Err(e) => later < earlier && e@ == (earlier - later) * 1_000_000,
    }
}

} // verus!
