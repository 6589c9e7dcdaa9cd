use std::time::{Duration, Instant, SystemTime};
use vstd::prelude::*;

verus! {

#[verifier::external_type_specification]
#[verifier::external_body]
pub struct ExInstant(Instant);

/// `Instant::clone` (std): `Instant` is `Copy`, so a clone is the same instant.
pub assume_specification[ <Instant as Clone>::clone ](i: &Instant) -> (r: Instant)
    ensures
        r == *i,
;

/// `Instant::now` (std): the current point of a monotonic clock. Nothing is
/// known of the value.
#[verifier::external_body]
pub(crate) fn instant_now() -> Instant {
    Instant::now()
}

/// `Instant > Instant` (std `PartialOrd`): whether `a` is later than `b`.
/// `Instant` is totally ordered (`Ord`), so an instant is not later than
/// itself; the instants are opaque here, so nothing more is stated.
#[verifier::external_body]
pub(crate) fn instant_is_later(a: &Instant, b: &Instant) -> (r: bool)
    ensures
        *a == *b ==> !r,
{
    a > b
}

#[verifier::external_type_specification]
#[verifier::external_body]
pub struct ExSystemTime(SystemTime);

/// `SystemTime::now` (std): the current time of the system clock. Nothing
/// is known of the value.
#[verifier::external_body]
pub(crate) fn system_time_now() -> SystemTime {
    SystemTime::now()
}

/// `SystemTime < SystemTime` (std `PartialOrd`): whether `a` is earlier
/// than `b`. `SystemTime` is totally ordered (`Ord`), so a time is not
/// earlier than itself; the times are opaque here, so nothing more is
/// stated.
#[verifier::external_body]
pub(crate) fn system_time_is_earlier(a: &SystemTime, b: &SystemTime) -> (r: bool)
    ensures
        *a == *b ==> !r,
{
    a < b
}

/// A span of time: whole seconds and the nanoseconds beyond them.
#[derive(Debug, Clone, Copy, PartialEq, Eq, Structural)]
pub struct ElapsedTime {
    pub secs: u64,
    pub nanos: u32,
}

impl ElapsedTime {
    /// The span in nanoseconds.
    pub open spec fn total_nanos(self) -> int {
        self.secs * 1_000_000_000 + self.nanos
    }

    pub open spec fn well_formed(self) -> bool {
        self.nanos < 1_000_000_000
    }

    /// A span of whole seconds.
    pub fn from_secs(secs: u64) -> (r: Self)
        ensures
            r == (ElapsedTime { secs, nanos: 0 }),
    {
        ElapsedTime { secs, nanos: 0 }
    }

    /// The whole seconds of the span.
    pub fn as_secs(&self) -> (r: u64)
        ensures
            r == self.secs,
    {
        self.secs
    }
}

/// The largest span that `Duration` can hold, in nanoseconds.
pub open spec fn max_total_nanos() -> int {
    u64::MAX * 1_000_000_000 + 999_999_999
}

/// `Duration::checked_add` (std): the sum of two spans, or `None` when it
/// does not fit.
#[verifier::external_body]
pub(crate) fn elapsed_checked_add(a: ElapsedTime, b: ElapsedTime) -> (r: Option<ElapsedTime>)
    requires
        a.well_formed(),
        b.well_formed(),
    ensures
        match r {
            Some(s) => s.well_formed() && s.total_nanos() == a.total_nanos() + b.total_nanos(),
            None => a.total_nanos() + b.total_nanos() > max_total_nanos(),
        },
{
    match Duration::new(a.secs, a.nanos).checked_add(Duration::new(b.secs, b.nanos)) {
        Some(d) => Some(ElapsedTime { secs: d.as_secs(), nanos: d.subsec_nanos() }),
        None => None,
    }
}

/// `Instant::duration_since` (std): the time from `earlier` to `later`, zero
/// when `earlier` is the later one, so zero from an instant to itself. It
/// rests on the clock; beyond that, only that the nanoseconds stay below a
/// second is known.
#[verifier::external_body]
pub(crate) fn instant_duration_since(later: &Instant, earlier: &Instant) -> (r: ElapsedTime)
    ensures
        r.well_formed(),
        *later == *earlier ==> r.total_nanos() == 0,
{
    let d = later.duration_since(*earlier);
    ElapsedTime { secs: d.as_secs(), nanos: d.subsec_nanos() }
}

} // verus!
