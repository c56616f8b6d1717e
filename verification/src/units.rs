//! The time unit of the simulation.

use std::ops::{Add, AddAssign, Sub, SubAssign};
use std::time::Duration;
use vstd::prelude::*;
use vstd::std_specs::ops::{AddSpecImpl, SubSpecImpl};

verus! {

/// A duration in whole milliseconds.
#[derive(Clone, Copy, Debug, PartialEq, Eq, Structural, PartialOrd, Ord)]
pub struct Milliseconds(pub u32);

/// Whole seconds held by a `Duration`, as `Duration::as_secs` reports them.
pub uninterp spec fn duration_secs(d: Duration) -> u64;

/// Nanoseconds beyond the whole seconds of a `Duration`, as
/// `Duration::subsec_nanos` reports them.
pub uninterp spec fn duration_subsec_nanos(d: Duration) -> u32;

/// Calls `Duration::as_secs`: the number of whole seconds in the duration.
#[verifier::external_body]
fn whole_seconds(d: &Duration) -> (secs: u64)
    ensures
        secs == duration_secs(*d),
{
    d.as_secs()
}

/// Calls `Duration::subsec_nanos`: the part of the duration beyond its whole
/// seconds, in nanoseconds.
#[verifier::external_body]
fn fractional_nanos(d: &Duration) -> (nanos: u32)
    ensures
        nanos == duration_subsec_nanos(*d),
{
    d.subsec_nanos()
}

/// Calls `Duration::from_millis`: a duration of `millis` milliseconds, that
/// is `millis / 1000` whole seconds and the rest as nanoseconds.
#[verifier::external_body]
fn duration_of_millis(millis: u64) -> (d: Duration)
    ensures
        duration_secs(d) == millis / 1000,
        duration_subsec_nanos(d) == (millis % 1000) * 1_000_000,
{
    Duration::from_millis(millis)
}

/// The whole milliseconds in `secs` seconds and `nanos` nanoseconds, held at
/// the largest `u32` where they exceed it.
pub open spec fn millis_of(secs: u64, nanos: u32) -> int {
    let total = secs * 1000 + nanos / 1_000_000;
    if total > u32::MAX {
        u32::MAX as int
    } else {
        total
    }
}

/// The executable form of [`millis_of`].
pub fn millis_from_parts(secs: u64, nanos: u32) -> (ms: u32)
    ensures
        ms == millis_of(secs, nanos),
{
    let fraction: u64 = (nanos / 1_000_000) as u64;
    if secs > 4_294_967 {
        u32::MAX
    } else {
        let total: u64 = secs * 1000 + fraction;
        if total > 4_294_967_295 {
            u32::MAX
        } else {
            total as u32
        }
    }
}

/// A duration made from whole milliseconds reads back as the same number
/// of milliseconds.
pub proof fn lemma_millis_round_trip(millis: u32)
    ensures
        millis_of((millis / 1000) as u64, ((millis % 1000) * 1_000_000) as u32) == millis,
        (millis % 1000) * 1_000_000 < 1_000_000_000,
{
}

impl Milliseconds {
    /// The number of milliseconds.
    pub open spec fn spec_value(self) -> u32 {
        self.0
    }

    pub fn new(milliseconds: u32) -> (ms: Self)
        ensures
            ms.spec_value() == milliseconds,
    {
        Milliseconds(milliseconds)
    }

    #[verifier::when_used_as_spec(spec_value)]
    pub fn value(self) -> (v: u32)
        ensures
            v == self.spec_value(),
    {
        self.0
    }

    /// The whole milliseconds of `duration`; a duration too long for the
    /// type gives the largest value.
    pub fn from_duration(duration: Duration) -> (ms: Self)
        ensures
            ms.spec_value() == millis_of(
                duration_secs(duration),
                duration_subsec_nanos(duration),
            ),
    {
        let secs = whole_seconds(&duration);
        let nanos = fractional_nanos(&duration);
        Milliseconds(millis_from_parts(secs, nanos))
    }

    pub fn to_duration(self) -> (d: Duration)
        ensures
            duration_secs(d) == self.spec_value() / 1000,
            duration_subsec_nanos(d) == (self.spec_value() % 1000) * 1_000_000,
    {
        duration_of_millis(self.0 as u64)
    }

    /// The sum of two durations, held at the largest value of the type.
    pub open spec fn plus(self, other: Milliseconds) -> Milliseconds {
        if self.0 + other.0 > u32::MAX {
            Milliseconds(u32::MAX)
        } else {
            Milliseconds((self.0 + other.0) as u32)
        }
    }

    /// The difference of two durations, where the second is no longer than
    /// the first.
    pub open spec fn minus(self, other: Milliseconds) -> Milliseconds
        recommends
            other.0 <= self.0,
    {
        Milliseconds((self.0 - other.0) as u32)
    }

    /// Whether `self` is strictly longer than `other`.
    pub fn longer_than(self, other: Milliseconds) -> (b: bool)
        ensures
            b == (self.spec_value() > other.spec_value()),
    {
        self.0 > other.0
    }
}

impl AddSpecImpl for Milliseconds {
    open spec fn obeys_add_spec() -> bool {
        true
    }

    open spec fn add_req(self, other: Milliseconds) -> bool {
        true
    }

    open spec fn add_spec(self, other: Milliseconds) -> Milliseconds {
        self.plus(other)
    }
}

impl Add for Milliseconds {
    type Output = Milliseconds;

    /// Saturating addition.
    fn add(self, other: Milliseconds) -> (sum: Milliseconds) {
        Milliseconds(self.0.saturating_add(other.0))
    }
}

impl SubSpecImpl for Milliseconds {
    open spec fn obeys_sub_spec() -> bool {
        true
    }

    open spec fn sub_req(self, other: Milliseconds) -> bool {
        other.0 <= self.0
    }

    open spec fn sub_spec(self, other: Milliseconds) -> Milliseconds {
        self.minus(other)
    }
}

impl Sub for Milliseconds {
    type Output = Milliseconds;

    /// Subtraction of a duration that is no longer than `self`: the caller
    /// clamps first.
    fn sub(self, other: Milliseconds) -> (difference: Milliseconds) {
        Milliseconds(self.0 - other.0)
    }
}

impl AddAssign for Milliseconds {
    /// Saturating addition in place.
    fn add_assign(&mut self, other: Milliseconds)
        ensures
            *final(self) == old(self).plus(other),
    {
        self.0 = self.0.saturating_add(other.0);
    }
}

impl SubAssign for Milliseconds {
    /// Subtraction in place of a duration that is no longer than `self`.
    fn sub_assign(&mut self, other: Milliseconds)
        requires
            other.0 <= old(self).0,
        ensures
            *final(self) == old(self).minus(other),
    {
        self.0 = self.0 - other.0;
    }
}

} // verus!
