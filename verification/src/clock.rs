//! Moments in time and the time that passes between two of them.

use vstd::prelude::*;

verus! {

/// The seconds of the last moment that can be told: the end of the year
/// 262142.
pub const LAST_SECOND: i64 = 8_210_266_876_799;

/// A moment: whole seconds since the start of 1970 in UTC, and the
/// nanoseconds within the second.
#[derive(Clone, Copy, Debug, PartialEq, Eq, Structural)]
pub struct Timestamp {
    pub secs: i64,
    pub nanos: u32,
}

/// A span of time, negative where it leads backwards: whole seconds and
/// the nanoseconds beyond them, both of one sign.
#[derive(Clone, Copy, Debug, PartialEq, Eq, Structural)]
pub struct Elapsed {
    pub secs: i64,
    pub nanos: i32,
}

/// Whether the pair names a moment.
pub open spec fn is_timestamp(secs: i64, nanos: u32) -> bool {
    0 <= secs <= LAST_SECOND && nanos < 1_000_000_000
}

/// The nanoseconds from `earlier` to `later`, negative where `later`
/// comes first.
pub open spec fn nanos_between(later: Timestamp, earlier: Timestamp) -> int {
    (later.secs - earlier.secs) * 1_000_000_000 + (later.nanos - earlier.nanos)
}

/// A number of nanoseconds as whole seconds, rounded towards zero, and
/// the nanoseconds that are left.
pub open spec fn elapsed_of(nanos: int) -> Elapsed {
    let secs = if nanos >= 0 {
        nanos / 1_000_000_000
    } else {
        -((-nanos) / 1_000_000_000)
    };
    Elapsed { secs: secs as i64, nanos: (nanos - secs * 1_000_000_000) as i32 }
}

impl Elapsed {
    /// The span in nanoseconds.
    pub open spec fn total_nanos(&self) -> int {
        self.secs * 1_000_000_000 + self.nanos
    }

    /// The nanoseconds are less than a second.
    pub open spec fn wf(&self) -> bool {
        -1_000_000_000 < self.nanos < 1_000_000_000
    }

    /// Whether the span is longer than `seconds` seconds.
    pub fn exceeds(&self, seconds: i64) -> (longer: bool)
        requires
            self.wf(),
        ensures
            longer == (self.total_nanos() > seconds * 1_000_000_000),
    {
        self.secs > seconds || (self.secs == seconds && self.nanos > 0)
    }

    /// Whether the span is `seconds` seconds long or longer.
    pub fn reaches(&self, seconds: i64) -> (reached: bool)
        requires
            self.wf(),
        ensures
            reached == (self.total_nanos() >= seconds * 1_000_000_000),
    {
        self.secs > seconds || (self.secs == seconds && self.nanos >= 0)
    }
}

impl Timestamp {
    /// Whether the value names a moment.
    pub open spec fn wf(&self) -> bool {
        is_timestamp(self.secs, self.nanos)
    }

    /// The moment `secs` seconds and `nanos` nanoseconds after the start
    /// of 1970, where there is one.
    pub fn new(secs: i64, nanos: u32) -> (time: Option<Timestamp>)
        ensures
            time is Some <==> is_timestamp(secs, nanos),
            time is Some ==> time->Some_0 == (Timestamp { secs, nanos }),
    {
        if secs < 0 || secs > LAST_SECOND || nanos >= 1_000_000_000 {
            None
        } else {
            Some(Timestamp { secs, nanos })
        }
    }

    /// The current moment.
    ///
    /// Trusted: calls `chrono::Utc::now`, and `timestamp` and
    /// `timestamp_subsec_nanos` on what it returns. The contract claims
    /// only that the result is a moment: chrono builds it from a time
    /// after the start of 1970 with less than a second of nanoseconds,
    /// and holds no date after the year 262142.
    #[verifier::external_body]
    pub(crate) fn now() -> (time: Timestamp)
        ensures
            time.wf(),
    {
        let t = chrono::Utc::now();
        Timestamp { secs: t.timestamp(), nanos: t.timestamp_subsec_nanos() }
    }

    /// The time that has passed from `earlier` to `self`.
    ///
    /// Trusted: builds both moments with `chrono::DateTime::from_timestamp`,
    /// calls `chrono::DateTime::signed_duration_since` on them, and
    /// `chrono::TimeDelta::num_seconds` and `subsec_nanos` on the
    /// difference. The contract claims that the difference is exact, that
    /// its seconds are rounded towards zero and that the nanoseconds are
    /// what is left.
    #[verifier::external_body]
    pub(crate) fn elapsed_since(self, earlier: Timestamp) -> (elapsed: Elapsed)
        requires
            self.wf(),
            earlier.wf(),
        ensures
            elapsed == elapsed_of(nanos_between(self, earlier)),
    {
        let later = chrono::DateTime::from_timestamp(self.secs, self.nanos).unwrap();
        let start = chrono::DateTime::from_timestamp(earlier.secs, earlier.nanos).unwrap();
        let delta = later.signed_duration_since(start);
        Elapsed { secs: delta.num_seconds(), nanos: delta.subsec_nanos() }
    }

    /// Whether more than `seconds` seconds have passed from `earlier` to
    /// `self`.
    pub fn is_more_than(self, seconds: i64, earlier: Timestamp) -> (longer: bool)
        requires
            self.wf(),
            earlier.wf(),
        ensures
            longer == (nanos_between(self, earlier) > seconds * 1_000_000_000),
    {
        let elapsed = self.elapsed_since(earlier);
        proof {
            lemma_elapsed_of(nanos_between(self, earlier));
        }
        elapsed.exceeds(seconds)
    }

    /// Whether `seconds` seconds or more have passed from `earlier` to
    /// `self`.
    pub fn is_at_least(self, seconds: i64, earlier: Timestamp) -> (reached: bool)
        requires
            self.wf(),
            earlier.wf(),
        ensures
            reached == (nanos_between(self, earlier) >= seconds * 1_000_000_000),
    {
        let elapsed = self.elapsed_since(earlier);
        proof {
            lemma_elapsed_of(nanos_between(self, earlier));
        }
        elapsed.reaches(seconds)
    }
}

/// Splitting a span into seconds and nanoseconds loses nothing, as long
/// as its seconds fit.
pub proof fn lemma_elapsed_of(nanos: int)
    requires
        -9_000_000_000_000_000_000_000 < nanos < 9_000_000_000_000_000_000_000,
    ensures
        elapsed_of(nanos).wf(),
        elapsed_of(nanos).total_nanos() == nanos,
{
}

} // verus!
