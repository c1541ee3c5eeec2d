//! Spans of time, and instants counted from the UNIX epoch, both in whole
//! seconds plus a sub-second part in nanoseconds.
use vstd::prelude::*;

verus! {

pub const NANOS_PER_SEC: u32 = 1_000_000_000;

/// A span of time: `secs` whole seconds and `nanos` further nanoseconds.
#[derive(Clone, Copy, Debug, PartialEq, Eq, Structural)]
pub struct TimeSpan {
    pub secs: u64,
    pub nanos: u32,
}

impl TimeSpan {
    /// The sub-second part is below one second.
    pub open spec fn wf(self) -> bool {
        self.nanos < NANOS_PER_SEC
    }

    /// The span as a number of nanoseconds.
    pub open spec fn total_nanos(self) -> int {
        self.secs * 1_000_000_000 + self.nanos
    }

    /// The largest span (`secs` and `nanos` both at their maximum).
    pub open spec fn spec_max() -> TimeSpan {
        TimeSpan { secs: u64::MAX, nanos: (NANOS_PER_SEC - 1) as u32 }
    }

    /// A span of `secs` whole seconds.
    pub fn from_secs(secs: u64) -> (t: TimeSpan)
        ensures
            t.wf(),
            t.secs == secs,
            t.nanos == 0,
    {
        TimeSpan { secs, nanos: 0 }
    }

    /// The largest span.
    pub fn max() -> (t: TimeSpan)
        ensures
            t == TimeSpan::spec_max(),
            t.wf(),
    {
        TimeSpan { secs: u64::MAX, nanos: NANOS_PER_SEC - 1 }
    }
}

/// An instant: `secs` whole seconds from the UNIX epoch, rounded down (so
/// negative before the epoch), and `nanos` nanoseconds past that second.
#[derive(Clone, Copy, Debug, PartialEq, Eq, Structural)]
pub struct UnixTime {
    pub secs: i128,
    pub nanos: u32,
}

impl UnixTime {
    /// The sub-second part is below one second.
    pub open spec fn wf(self) -> bool {
        self.nanos < NANOS_PER_SEC
    }

    /// The instant as nanoseconds from the epoch.
    pub open spec fn total_nanos(self) -> int {
        self.secs * 1_000_000_000 + self.nanos
    }

    /// The instant `span` after this one, carrying whole seconds out of the
    /// nanoseconds.
    pub open spec fn spec_later_by(self, span: TimeSpan) -> UnixTime {
        let nanos_sum = self.nanos + span.nanos;
        let carry: int = if nanos_sum >= NANOS_PER_SEC { 1 } else { 0 };
        UnixTime {
            secs: (self.secs + span.secs + carry) as i128,
            nanos: (if nanos_sum >= NANOS_PER_SEC {
                nanos_sum - NANOS_PER_SEC
            } else {
                nanos_sum
            }) as u32,
        }
    }

    /// Moving a well-formed instant by a well-formed span moves it by the
    /// span's length, when the seconds fit.
    pub proof fn lemma_later_by_adds(self, span: TimeSpan)
        requires
            self.wf(),
            span.wf(),
            self.secs + span.secs + 1 <= i128::MAX,
        ensures
            self.spec_later_by(span).wf(),
            self.spec_later_by(span).total_nanos() == self.total_nanos() + span.total_nanos(),
    {
    }

    /// The instant `secs` whole seconds from the epoch.
    pub fn from_secs(secs: i128) -> (t: UnixTime)
        ensures
            t.wf(),
            t.secs == secs,
            t.nanos == 0,
    {
        UnixTime { secs, nanos: 0 }
    }

    /// The instant `elapsed` after the epoch.
    pub fn after_epoch(elapsed: TimeSpan) -> (t: UnixTime)
        requires
            elapsed.wf(),
        ensures
            t.wf(),
            t.total_nanos() == elapsed.total_nanos(),
            0 <= t.secs <= u64::MAX,
    {
        UnixTime { secs: elapsed.secs as i128, nanos: elapsed.nanos }
    }

    /// The instant `ahead` before the epoch.
    pub fn before_epoch(ahead: TimeSpan) -> (t: UnixTime)
        requires
            ahead.wf(),
        ensures
            t.wf(),
            t.total_nanos() == -ahead.total_nanos(),
            -(u64::MAX as int) - 1 <= t.secs <= 0,
    {
        if ahead.nanos == 0 {
            UnixTime { secs: -(ahead.secs as i128), nanos: 0 }
        } else {
            UnixTime { secs: -(ahead.secs as i128) - 1, nanos: NANOS_PER_SEC - ahead.nanos }
        }
    }

    /// The instant `span` after this one.
    pub fn later_by(self, span: TimeSpan) -> (t: UnixTime)
        requires
            self.wf(),
            span.wf(),
            self.secs + span.secs + 1 <= i128::MAX,
        ensures
            t == self.spec_later_by(span),
            t.wf(),
            t.total_nanos() == self.total_nanos() + span.total_nanos(),
    {
        let nanos_sum: u32 = self.nanos + span.nanos;
        if nanos_sum >= NANOS_PER_SEC {
            UnixTime { secs: self.secs + span.secs as i128 + 1, nanos: nanos_sum - NANOS_PER_SEC }
        } else {
            UnixTime { secs: self.secs + span.secs as i128, nanos: nanos_sum }
        }
    }
}

/// The wall clock's reading, a `std::time::SystemTime`.
#[verifier::external_type_specification]
#[verifier::external_body]
pub struct ExSystemTime(std::time::SystemTime);

/// Calls `std::time::SystemTime::now`. Nothing is claimed of the reading.
#[verifier::external_body]
fn system_clock() -> std::time::SystemTime {
    std::time::SystemTime::now()
}

/// Calls `SystemTime::duration_since(UNIX_EPOCH)` on `t` and converts what
/// it gives into whole seconds and sub-second nanoseconds: `Ok` with how far
/// `t` lies after the epoch, or, when `t` lies before it, `Err` with how far
/// (std's `SystemTimeError::duration`). A `Duration`'s sub-second part is
/// always below one second, which is all that is claimed of the values.
#[verifier::external_body]
fn elapsed_since_unix_epoch(t: &std::time::SystemTime) -> (r: Result<TimeSpan, TimeSpan>)
    ensures
        r matches Ok(s) ==> s.wf(),
        r matches Err(s) ==> s.wf(),
{
    match t.duration_since(std::time::UNIX_EPOCH) {
        Ok(d) => Ok(TimeSpan { secs: d.as_secs(), nanos: d.subsec_nanos() }),
        Err(e) => Err(TimeSpan { secs: e.duration().as_secs(), nanos: e.duration().subsec_nanos() }),
    }
}

/// What a reading of the wall clock can be: a well-formed instant whose
/// seconds lie within a `Duration`'s range on either side of the epoch.
pub open spec fn is_clock_reading(t: UnixTime) -> bool {
    &&& t.wf()
    &&& -(u64::MAX as int) - 1 <= t.secs <= u64::MAX
}

/// The current instant, before or after the epoch.
pub fn now() -> (t: UnixTime)
    ensures
        is_clock_reading(t),
{
    let clock = system_clock();
    match elapsed_since_unix_epoch(&clock) {
        Ok(elapsed) => UnixTime::after_epoch(elapsed),
        Err(ahead) => UnixTime::before_epoch(ahead),
    }
}

} // verus!
