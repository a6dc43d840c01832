//! Wall-clock readings, held as plain seconds and nanoseconds since the Unix
//! epoch, and the whole seconds between two readings.

use vstd::prelude::*;

verus! {

/// An instant in UTC: `secs` since the Unix epoch and `nanos` into that second.
#[derive(Clone, Copy, Debug, PartialEq, Eq, Structural)]
pub struct UtcTime {
    pub secs: i64,
    pub nanos: u32,
}

pub const NANOS_PER_SEC: i128 = 1_000_000_000;

impl UtcTime {
    /// A reading of the kind `Utc::now` gives: no leap second, so the
    /// nanoseconds stay below one second.
    pub open spec fn wf(self) -> bool {
        self.nanos < 1_000_000_000
    }

    /// The instant as nanoseconds since the Unix epoch.
    pub open spec fn total_nanos(self) -> int {
        self.secs * 1_000_000_000 + self.nanos
    }
}

/// The whole seconds from `earlier` to `later`, rounded toward zero: what
/// `(later - earlier).num_seconds()` gives for two chrono instants without a
/// leap second (the `TimeDelta` is their exact difference, and
/// `num_seconds` drops the fraction toward zero).
pub open spec fn whole_seconds_between(earlier: UtcTime, later: UtcTime) -> int {
    let d = later.total_nanos() - earlier.total_nanos();
    if d >= 0 {
        d / 1_000_000_000
    } else {
        -((-d) / 1_000_000_000)
    }
}

/// `Utc::now()`, read as `timestamp()` and `timestamp_subsec_nanos()`.
/// chrono builds it from the system clock's seconds and sub-second
/// nanoseconds, so no leap second appears; which instant comes is the clock's.
#[verifier::external_body]
pub(crate) fn utc_now() -> (t: UtcTime)
    ensures
        t.wf(),
{
    let now = chrono::Utc::now();
    UtcTime { secs: now.timestamp(), nanos: now.timestamp_subsec_nanos() }
}

/// What chrono's `to_rfc3339` writes for the UTC instant `secs` seconds and
/// `nanos` nanoseconds after the Unix epoch.
pub uninterp spec fn rfc3339_text(secs: i64, nanos: u32) -> Seq<char>;

/// `Utc::now()`, read as `timestamp()` and `timestamp_subsec_nanos()`
/// together with its `to_rfc3339()` text. Which instant comes is the clock's
/// (no leap second, as for `utc_now`); the text is chrono's formatting of
/// that instant, which depends on the instant alone.
#[verifier::external_body]
pub(crate) fn now_with_rfc3339() -> (r: (UtcTime, String))
    ensures
        r.0.wf(),
        r.1@ == rfc3339_text(r.0.secs, r.0.nanos),
{
    let now = chrono::Utc::now();
    (UtcTime { secs: now.timestamp(), nanos: now.timestamp_subsec_nanos() }, now.to_rfc3339())
}

/// The whole seconds from `earlier` to `later`, rounded toward zero.
pub fn seconds_between(earlier: UtcTime, later: UtcTime) -> (s: i128)
    ensures
        s == whole_seconds_between(earlier, later),
{
    let d: i128 = (later.secs as i128 - earlier.secs as i128) * NANOS_PER_SEC
        + (later.nanos as i128 - earlier.nanos as i128);
    if d >= 0 {
        d / NANOS_PER_SEC
    } else {
        -((-d) / NANOS_PER_SEC)
    }
}

} // verus!
