//! Instants and lengths of time.

use k8s_openapi::jiff::{SignedDuration, Timestamp};
use std::time::Duration;
use vstd::prelude::*;

verus! {

/// The earliest instant of a [`MicroTime`], `-9999-01-02T01:59:59Z`, in
/// nanoseconds since the Unix epoch.
pub const MIN_NANOSECOND: i128 = -377_705_023_201_000_000_000;

/// The latest instant of a [`MicroTime`], `9999-12-30T22:00:00.999999999Z`, in
/// nanoseconds since the Unix epoch.
pub const MAX_NANOSECOND: i128 = 253_402_207_200_999_999_999;

/// Whether an instant lies in the range that a [`MicroTime`] can hold.
pub open spec fn representable(nanosecond: int) -> bool {
    MIN_NANOSECOND <= nanosecond <= MAX_NANOSECOND
}

/// The instant `seconds` after `nanosecond`.
pub open spec fn seconds_after(nanosecond: int, seconds: int) -> int {
    nanosecond + seconds * 1_000_000_000
}

/// The last whole microsecond up to an instant. This is what is left of the
/// instant in the text form in which Kubernetes exchanges it.
pub open spec fn whole_microsecond(nanosecond: int) -> int {
    nanosecond - nanosecond % 1_000
}

/// An instant, in nanoseconds since the Unix epoch.
#[derive(Debug, Clone, Copy, PartialEq, Eq, Structural)]
pub struct MicroTime {
    nanosecond: i128,
}

impl View for MicroTime {
    type V = int;

    closed spec fn view(&self) -> int {
        self.nanosecond as int
    }
}

impl MicroTime {
    #[verifier::type_invariant]
    spec fn in_range(self) -> bool {
        representable(self.nanosecond as int)
    }

    /// The instant `nanosecond` nanoseconds after the Unix epoch, or `None`
    /// where it lies outside the representable range.
    pub fn from_nanosecond(nanosecond: i128) -> (r: Option<MicroTime>)
        ensures
            r is Some <==> representable(nanosecond as int),
            r matches Some(t) ==> t@ == nanosecond,
    {
        if MIN_NANOSECOND <= nanosecond && nanosecond <= MAX_NANOSECOND {
            Some(MicroTime { nanosecond })
        } else {
            None
        }
    }

    /// The nanoseconds from the Unix epoch to this instant.
    pub fn as_nanosecond(&self) -> (r: i128)
        ensures
            r == self@,
            representable(self@),
    {
        proof {
            use_type_invariant(self);
        }
        self.nanosecond
    }

    /// Whether the instant `seconds` after this one is representable.
    pub fn can_add_seconds(&self, seconds: i64) -> (r: bool)
        ensures
            r == representable(seconds_after(self@, seconds as int)),
    {
        proof {
            use_type_invariant(self);
        }
        let sum: i128 = self.nanosecond + seconds as i128 * 1_000_000_000;
        MIN_NANOSECOND <= sum && sum <= MAX_NANOSECOND
    }

    /// The instant `seconds` after this one.
    pub fn plus_seconds(&self, seconds: i64) -> (r: MicroTime)
        requires
            representable(seconds_after(self@, seconds as int)),
        ensures
            r@ == seconds_after(self@, seconds as int),
    {
        proof {
            use_type_invariant(self);
        }
        MicroTime { nanosecond: add_seconds(self.nanosecond, seconds) }
    }
}

/// Calls `Timestamp + SignedDuration` of jiff on plain integers.
///
/// Claimed: inside the range of a timestamp the sum is exact to the nanosecond.
/// Where the sum leaves that range the operator panics, so such arguments are
/// excluded.
#[verifier::external_body]
fn add_seconds(nanosecond: i128, seconds: i64) -> (sum: i128)
    requires
        representable(nanosecond as int),
        representable(seconds_after(nanosecond as int, seconds as int)),
    ensures
        sum == seconds_after(nanosecond as int, seconds as int),
{
    let start = Timestamp::from_nanosecond(nanosecond).unwrap();
    (start + SignedDuration::new(seconds, 0)).as_nanosecond()
}

/// What `Duration::from_secs` returns for a number of seconds.
pub uninterp spec fn duration_from_secs(secs: u64) -> Duration;

/// What `Duration::as_secs` returns for a duration.
pub uninterp spec fn duration_as_secs(duration: Duration) -> u64;

/// `Duration::from_secs` depends on nothing but its argument, and `as_secs`
/// gives that argument back.
pub assume_specification[ Duration::from_secs ](secs: u64) -> (r: Duration)
    ensures
        r == duration_from_secs(secs),
        duration_as_secs(r) == secs,
;

/// `Duration::as_secs` depends on nothing but the duration.
pub assume_specification[ Duration::as_secs ](duration: &Duration) -> (r: u64)
    ensures
        r == duration_as_secs(*duration),
;

/// There is an instant for every number of nanoseconds from the earliest to the
/// latest timestamp and for no other, and it gives that number back.
pub proof fn law_instants_keep_their_nanoseconds(
    nanosecond: i128,
    made: Option<MicroTime>,
    given_back: i128,
)
    requires
        call_ensures(MicroTime::from_nanosecond, (nanosecond,), made),
        made matches Some(t) ==> call_ensures(MicroTime::as_nanosecond, (&t,), given_back),
    ensures
        made is Some <==> -377_705_023_201_000_000_000 <= nanosecond
            <= 253_402_207_200_999_999_999,
        made is Some ==> given_back == nanosecond,
{
}

/// The sum of an instant and some seconds lies that many billions of nanoseconds
/// later, and is said to exist exactly where it is in range.
pub proof fn law_seconds_are_billions_of_nanoseconds(
    start: MicroTime,
    seconds: i64,
    possible: bool,
    sum: MicroTime,
)
    requires
        call_ensures(MicroTime::can_add_seconds, (&start, seconds), possible),
        possible ==> call_ensures(MicroTime::plus_seconds, (&start, seconds), sum),
    ensures
        possible <==> -377_705_023_201_000_000_000 <= start@ + seconds * 1_000_000_000
            <= 253_402_207_200_999_999_999,
        possible ==> sum@ - start@ == seconds * 1_000_000_000,
{
}

} // verus!
