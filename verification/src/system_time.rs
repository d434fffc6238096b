//! Instants and the error of measuring between two of them in the wrong order.

use core::cmp::Ordering;
use vstd::prelude::*;
use vstd::std_specs::cmp::PartialOrdSpecImpl;
use vstd::std_specs::convert::FromSpecImpl;
use vstd::std_specs::ops::{AddSpecImpl, SubSpecImpl};
use crate::duration::Duration;
use crate::host::{after_unix_epoch, before_unix_epoch, since_unix_epoch};
use crate::host::{epoch_nanos, nanos_of, whole_millis};
use crate::model;
use crate::model::{count_of, is_duration_since};

verus! {

/// A point in time: the signed number of whole milliseconds from the Unix epoch to it.
///
/// Every `i64` is the count of an instant; a negative count is an instant before the epoch.
/// Two instants are equal where their counts are, and ordered as their counts are.
#[derive(Clone, Copy, Debug, PartialEq, Eq, Ord, Hash, Structural)]
pub struct SystemTime(i64);

impl View for SystemTime {
    type V = int;

    /// The count: milliseconds from the epoch, negative before it.
    closed spec fn view(&self) -> int {
        self.0 as int
    }
}

/// The distance in milliseconds between two counts, the first not before the second.
fn millis_between(later: i64, earlier: i64) -> (gap: u64)
    requires
        later >= earlier,
    ensures
        gap == later - earlier,
{
    (later as i128 - earlier as i128) as u64
}

impl SystemTime {
    /// The instant whose count is `count`, for a count that an `i64` holds.
    pub closed spec fn at(count: int) -> SystemTime {
        SystemTime(count as i64)
    }

    /// The instant of the Unix epoch, whose count is zero.
    pub fn epoch() -> (t: Self)
        ensures
            t@ == 0,
            t == SystemTime::at(0),
    {
        SystemTime(0)
    }

    /// The instant `val` milliseconds from the epoch.
    pub fn new(val: i64) -> (t: Self)
        ensures
            t@ == val,
            t == SystemTime::at(val as int),
    {
        SystemTime(val)
    }

    /// The current instant, as the host clock gives it: what [`SystemTime::from`] makes of
    /// the host's reading.
    #[must_use]
    pub fn now() -> (t: Self)
        ensures
            exists|host: std::time::SystemTime| t@ == model::count_at(#[trigger] epoch_nanos(host)),
    {
        SystemTime::from(std::time::SystemTime::now())
    }

    /// The time from `earlier` to `self`, or, where `earlier` is the later of the two, the time
    /// from `self` to `earlier` as an error. Every pair of instants has one or the other.
    pub fn duration_since(&self, earlier: Self) -> (r: Result<
        core::time::Duration,
        SystemTimeError,
    >)
        ensures
            is_duration_since(self@, earlier@, r),
    {
        if self.0 < earlier.0 {
            let gap = millis_between(earlier.0, self.0);
            Err(SystemTimeError(core::time::Duration::from_millis(gap)))
        } else {
            let gap = millis_between(self.0, earlier.0);
            Ok(core::time::Duration::from_millis(gap))
        }
    }

    /// The time from `self` to the current instant, or, where `self` lies after it, the time
    /// from the current instant to `self` as an error: [`SystemTime::duration_since`] of some
    /// instant that the clock gave.
    pub fn elapsed(&self) -> (r: Result<core::time::Duration, SystemTimeError>)
        ensures
            exists|sampled: int|
                i64::MIN <= sampled <= i64::MAX && #[trigger] is_duration_since(sampled, self@, r),
    {
        let sampled = SystemTime::now();
        let r = sampled.duration_since(*self);
        assert(is_duration_since(sampled@, self@, r));
        r
    }

    /// The instant `millis` milliseconds after `self`, where there is one.
    fn forward(&self, millis: u128) -> (r: Option<Self>)
        ensures
            count_of(r) == model::checked_add(self@, millis as nat),
    {
        match i64::try_from(millis) {
            Ok(step) => match self.0.checked_add(step) {
                Some(count) => Some(SystemTime(count)),
                None => None,
            },
            Err(_) => None,
        }
    }

    /// The instant `millis` milliseconds before `self`, where there is one.
    fn backward(&self, millis: u128) -> (r: Option<Self>)
        ensures
            count_of(r) == model::checked_sub(self@, millis as nat),
    {
        match i64::try_from(millis) {
            Ok(step) => match self.0.checked_sub(step) {
                Some(count) => Some(SystemTime(count)),
                None => None,
            },
            Err(_) => None,
        }
    }

    /// The instant that lies the whole milliseconds of `duration` after `self`; `None` where
    /// that number of milliseconds, or the count of the result, is more than an `i64` holds.
    pub fn checked_add_std(&self, duration: core::time::Duration) -> (r: Option<Self>)
        ensures
            count_of(r) == model::checked_add(self@, whole_millis(duration)),
    {
        self.forward(duration.as_millis())
    }

    /// The instant that lies `duration` after `self`; `None` where its milliseconds, or the
    /// count of the result, are more than an `i64` holds.
    pub fn checked_add(&self, duration: Duration) -> (r: Option<Self>)
        ensures
            count_of(r) == model::checked_add(self@, duration@),
    {
        self.forward(duration.as_millis() as u128)
    }

    /// The instant that lies the whole milliseconds of `duration` before `self`; `None` where
    /// that number of milliseconds is more than an `i64` holds, or the count of the result less.
    pub fn checked_sub_std(&self, duration: core::time::Duration) -> (r: Option<Self>)
        ensures
            count_of(r) == model::checked_sub(self@, whole_millis(duration)),
    {
        self.backward(duration.as_millis())
    }

    /// The instant that lies `duration` before `self`; `None` where its milliseconds are more
    /// than an `i64` holds, or the count of the result less.
    pub fn checked_sub(&self, duration: Duration) -> (r: Option<Self>)
        ensures
            count_of(r) == model::checked_sub(self@, duration@),
    {
        self.backward(duration.as_millis() as u128)
    }

    /// The host time at which `self` lies: the epoch of the host, moved by the distance of
    /// `self` from the epoch. `None` where the host cannot hold that time, which is for the
    /// host to say.
    pub fn to_std(&self) -> (r: Option<std::time::SystemTime>)
        ensures
            r matches Some(host) ==> epoch_nanos(host) == self@ * 1_000_000,
    {
        match self.duration_since(SystemTime::epoch()) {
            Ok(after) => after_unix_epoch(after),
            Err(e) => before_unix_epoch(e.duration()),
        }
    }
}

/// An instant is the instant at its own count, and an `i64` holds every count.
pub proof fn lemma_at_own_count(t: SystemTime)
    ensures
        SystemTime::at(t@) == t,
        i64::MIN <= t@ <= i64::MAX,
{
}

/// The instant at a count that an `i64` holds has that count.
pub proof fn lemma_count_of_at(count: int)
    requires
        i64::MIN <= count <= i64::MAX,
    ensures
        SystemTime::at(count)@ == count,
{
}

impl PartialOrd for SystemTime {
    /// Instants are ordered as their counts are.
    fn partial_cmp(&self, other: &Self) -> (r: Option<Ordering>) {
        if self.0 < other.0 {
            Some(Ordering::Less)
        } else if self.0 == other.0 {
            Some(Ordering::Equal)
        } else {
            Some(Ordering::Greater)
        }
    }
}

impl PartialOrdSpecImpl for SystemTime {
    open spec fn obeys_partial_cmp_spec() -> bool {
        true
    }

    open spec fn partial_cmp_spec(&self, other: &Self) -> Option<Ordering> {
        if self@ < other@ {
            Some(Ordering::Less)
        } else if self@ == other@ {
            Some(Ordering::Equal)
        } else {
            Some(Ordering::Greater)
        }
    }
}

impl core::ops::Add<Duration> for SystemTime {
    type Output = SystemTime;

    /// The instant that lies `dur` after `self`, for a caller who knows that there is one.
    fn add(self, dur: Duration) -> (t: SystemTime)
        ensures
            Some(t@) == model::checked_add(self@, dur@),
    {
        self.checked_add(dur).expect("overflow when adding duration to instant")
    }
}

impl AddSpecImpl<Duration> for SystemTime {
    open spec fn obeys_add_spec() -> bool {
        true
    }

    open spec fn add_req(self, dur: Duration) -> bool {
        model::checked_add(self@, dur@) is Some
    }

    open spec fn add_spec(self, dur: Duration) -> SystemTime {
        SystemTime::at(self@ + dur@)
    }
}

impl core::ops::Add<core::time::Duration> for SystemTime {
    type Output = SystemTime;

    /// The instant that lies the whole milliseconds of `dur` after `self`, for a caller who
    /// knows that there is one.
    fn add(self, dur: core::time::Duration) -> (t: SystemTime)
        ensures
            Some(t@) == model::checked_add(self@, whole_millis(dur)),
    {
        self.checked_add_std(dur).expect("overflow when adding duration to instant")
    }
}

impl AddSpecImpl<core::time::Duration> for SystemTime {
    open spec fn obeys_add_spec() -> bool {
        true
    }

    open spec fn add_req(self, dur: core::time::Duration) -> bool {
        model::checked_add(self@, whole_millis(dur)) is Some
    }

    open spec fn add_spec(self, dur: core::time::Duration) -> SystemTime {
        SystemTime::at(self@ + whole_millis(dur))
    }
}

impl core::ops::AddAssign<core::time::Duration> for SystemTime {
    /// Moves `self` forward by the whole milliseconds of `other`, for a caller who knows that
    /// there is such an instant.
    fn add_assign(&mut self, other: core::time::Duration)
        requires
            model::checked_add(old(self)@, whole_millis(other)) is Some,
        ensures
            Some(final(self)@) == model::checked_add(old(self)@, whole_millis(other)),
    {
        *self = *self + other;
    }
}

impl core::ops::Sub<core::time::Duration> for SystemTime {
    type Output = SystemTime;

    /// The instant that lies the whole milliseconds of `dur` before `self`, for a caller who
    /// knows that there is one.
    fn sub(self, dur: core::time::Duration) -> (t: SystemTime)
        ensures
            Some(t@) == model::checked_sub(self@, whole_millis(dur)),
    {
        self.checked_sub_std(dur).expect("overflow when subtracting duration from instant")
    }
}

impl SubSpecImpl<core::time::Duration> for SystemTime {
    open spec fn obeys_sub_spec() -> bool {
        true
    }

    open spec fn sub_req(self, dur: core::time::Duration) -> bool {
        model::checked_sub(self@, whole_millis(dur)) is Some
    }

    open spec fn sub_spec(self, dur: core::time::Duration) -> SystemTime {
        SystemTime::at(self@ - whole_millis(dur))
    }
}

impl core::ops::SubAssign<core::time::Duration> for SystemTime {
    /// Moves `self` back by the whole milliseconds of `other`, for a caller who knows that
    /// there is such an instant.
    fn sub_assign(&mut self, other: core::time::Duration)
        requires
            model::checked_sub(old(self)@, whole_millis(other)) is Some,
        ensures
            Some(final(self)@) == model::checked_sub(old(self)@, whole_millis(other)),
    {
        *self = *self - other;
    }
}

impl From<std::time::SystemTime> for SystemTime {
    /// The instant at which the host time `host` lies: the whole milliseconds between the
    /// host's epoch and `host`, after the epoch or before it. A host time further from the
    /// epoch than an `i64` of milliseconds reaches gives the last instant, or the first.
    fn from(host: std::time::SystemTime) -> (t: SystemTime)
        ensures
            t@ == model::count_at(epoch_nanos(host)),
    {
        match since_unix_epoch(host) {
            Ok(after) => match i64::try_from(after.as_millis()) {
                Ok(millis) => SystemTime(millis),
                Err(_) => SystemTime(i64::MAX),
            },
            Err(before) => match i64::try_from(before.as_millis()) {
                Ok(millis) => SystemTime(-millis),
                Err(_) => SystemTime(i64::MIN),
            },
        }
    }
}

impl FromSpecImpl<std::time::SystemTime> for SystemTime {
    open spec fn obeys_from_spec() -> bool {
        true
    }

    open spec fn from_spec(host: std::time::SystemTime) -> SystemTime {
        SystemTime::at(model::count_at(epoch_nanos(host)))
    }
}

/// The second instant of a measurement was later than the first.
#[derive(Debug)]
pub struct SystemTimeError(core::time::Duration);

impl View for SystemTimeError {
    type V = nat;

    /// How far the second instant lay after the first, in nanoseconds.
    closed spec fn view(&self) -> nat {
        nanos_of(self.0)
    }
}

impl Clone for SystemTimeError {
    fn clone(&self) -> (e: Self)
        ensures
            e == *self,
    {
        SystemTimeError(self.0)
    }
}

impl SystemTimeError {
    /// How far the second instant lay after the first.
    #[must_use]
    pub fn duration(&self) -> (d: core::time::Duration)
        ensures
            nanos_of(d) == self@,
    {
        self.0
    }

    /// The error in words; they are the same for every error.
    pub fn to_string(&self) -> (text: String)
        ensures
            text@ == "second time provided was later than self"@,
    {
        "second time provided was later than self".to_owned()
    }
}

} // verus!
