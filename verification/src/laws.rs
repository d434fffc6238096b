//! What holds of instants whatever the values: each law is proved from the contracts and the
//! model that the executable functions are stated over.

use core::cmp::Ordering;
use vstd::prelude::*;
use vstd::std_specs::cmp::PartialOrdSpec;
use vstd::std_specs::ops::AddSpec;
use crate::duration::Duration;
use crate::host::{epoch_nanos, whole_millis};
use crate::model;
use crate::system_time::{lemma_at_own_count, lemma_count_of_at, SystemTime};

verus! {

/// Instants are ordered as their counts are: the instant at `a` is less than, equal to or
/// greater than the instant at `b` exactly where `a` is less than, equal to or greater than `b`.
pub proof fn law_order_follows_count(a: int, b: int)
    requires
        i64::MIN <= a <= i64::MAX,
        i64::MIN <= b <= i64::MAX,
    ensures
        SystemTime::at(a).partial_cmp_spec(&SystemTime::at(b)) == Some(Ordering::Less) <==> a < b,
        SystemTime::at(a).partial_cmp_spec(&SystemTime::at(b)) == Some(Ordering::Equal) <==> a
            == b,
        SystemTime::at(a).partial_cmp_spec(&SystemTime::at(b)) == Some(Ordering::Greater) <==> a
            > b,
        SystemTime::at(a) == SystemTime::at(b) <==> a == b,
{
    lemma_count_of_at(a);
    lemma_count_of_at(b);
}

/// Two instants are the same instant exactly where their counts are the same.
pub proof fn law_equal_counts(s: SystemTime, t: SystemTime)
    ensures
        s == t <==> s@ == t@,
{
    lemma_at_own_count(s);
    lemma_at_own_count(t);
}

/// Going forward by an offset and then back by the same offset ends at the start: where
/// `millis` can be added to the instant `t`, it can be taken from the sum, and that gives the
/// count of `t`.
pub proof fn law_add_then_sub(t: SystemTime, millis: nat)
    requires
        model::checked_add(t@, millis) is Some,
    ensures
        model::checked_sub(model::checked_add(t@, millis).unwrap(), millis) == Some(t@),
{
    lemma_at_own_count(t);
}

/// An offset of more milliseconds than lie between the instant `t` and the last instant
/// cannot be added: `checked_add` gives `None`, and `+` may not be called.
pub proof fn law_add_past_the_last(t: SystemTime, d: Duration)
    requires
        d@ > i64::MAX - t@,
    ensures
        model::checked_add(t@, d@) is None,
        !t.add_req(d),
{
}

/// The same of an offset of the standard library, by its whole milliseconds.
pub proof fn law_add_std_past_the_last(t: SystemTime, d: core::time::Duration)
    requires
        whole_millis(d) > i64::MAX - t@,
    ensures
        model::checked_add(t@, whole_millis(d)) is None,
        !t.add_req(d),
{
}

/// An instant that went to a host time comes back unchanged: a host time that lies where
/// `to_std` puts the instant `t` has the count of `t`.
pub proof fn law_host_round_trip(t: SystemTime, host: std::time::SystemTime)
    requires
        epoch_nanos(host) == t@ * 1_000_000,
    ensures
        model::count_at(epoch_nanos(host)) == t@,
{
    lemma_at_own_count(t);
}

/// A host time that went to an instant comes back without what it held below a millisecond:
/// the host time `back`, which lies where `to_std` puts the instant of `host`, is less than a
/// millisecond nearer to the epoch than `host`, lies at a whole millisecond, and has the same
/// instant. This is for a host time whose whole milliseconds an `i64` holds.
pub proof fn law_host_drops_below_millis(host: std::time::SystemTime, back: std::time::SystemTime)
    requires
        i64::MIN <= model::millis_toward_zero(epoch_nanos(host)) <= i64::MAX,
        epoch_nanos(back) == model::count_at(epoch_nanos(host)) * 1_000_000,
    ensures
        epoch_nanos(back) % 1_000_000 == 0,
        epoch_nanos(host) >= 0 ==> 0 <= epoch_nanos(host) - epoch_nanos(back) < 1_000_000,
        epoch_nanos(host) < 0 ==> 0 <= epoch_nanos(back) - epoch_nanos(host) < 1_000_000,
        model::count_at(epoch_nanos(back)) == model::count_at(epoch_nanos(host)),
{
}

} // verus!
