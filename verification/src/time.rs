//! Points in time, to the nanosecond, and how they are written in labels.

use vstd::prelude::*;

verus! {

/// The first second that `chrono` has a date for: the start of the year
/// -262143.
pub const EARLIEST: i64 = -8_334_601_228_800;

/// The last second that `chrono` has a date for: the end of the year 262142.
pub const LATEST: i64 = 8_210_266_876_799;

/// The nanoseconds in a second.
pub const NANOS_PER_SECOND: u32 = 1_000_000_000;

/// The text that `chrono` writes for a second of the Unix clock as an
/// RFC 3339 timestamp in UTC, without fractions and with `Z` for the offset,
/// such as `2020-08-08T23:44:31Z`.
pub uninterp spec fn rfc3339_utc(seconds: int) -> Seq<char>;

/// `DateTime::from_timestamp(seconds, 0)`, then `to_rfc3339_opts` with
/// `SecondsFormat::Secs` and `use_z`. The first has no date for seconds
/// before `EARLIEST` or after `LATEST`, which the contract leaves out.
#[verifier::external_body]
fn format_rfc3339_utc(seconds: i64) -> (text: String)
    requires
        EARLIEST <= seconds <= LATEST,
    ensures
        text@ == rfc3339_utc(seconds as int),
{
    let instant = chrono::DateTime::from_timestamp(seconds, 0).unwrap();
    instant.to_rfc3339_opts(chrono::SecondsFormat::Secs, true)
}

/// The second nearest to `seconds` between `EARLIEST` and `LATEST`.
pub open spec fn nearest_second(seconds: int) -> int {
    if seconds < EARLIEST {
        EARLIEST as int
    } else if seconds > LATEST {
        LATEST as int
    } else {
        seconds
    }
}

/// The part of a second nearest to `nanos`.
pub open spec fn nearest_nanos(nanos: int) -> int {
    if nanos < NANOS_PER_SECOND {
        nanos
    } else {
        NANOS_PER_SECOND - 1
    }
}

/// A point in time in UTC: a second of the Unix clock between `EARLIEST` and
/// `LATEST`, and the nanoseconds into it.
#[derive(Clone, Copy, Debug, PartialEq, Eq)]
pub struct Timestamp {
    seconds: i64,
    nanos: u32,
}

impl Timestamp {
    #[verifier::type_invariant]
    spec fn in_range(self) -> bool {
        &&& EARLIEST <= self.seconds <= LATEST
        &&& self.nanos < NANOS_PER_SECOND
    }

    /// The whole seconds since 1970-01-01T00:00:00Z.
    pub closed spec fn seconds(self) -> int {
        self.seconds as int
    }

    /// The nanoseconds into the second.
    pub closed spec fn nanos(self) -> int {
        self.nanos as int
    }

    /// The nanoseconds since 1970-01-01T00:00:00Z.
    pub open spec fn nanoseconds(self) -> int {
        self.seconds() * NANOS_PER_SECOND + self.nanos()
    }

    /// The timestamp of a second of the Unix clock and the nanoseconds into
    /// it, where the second lies between `EARLIEST` and `LATEST` and the
    /// nanoseconds stay within the second.
    pub fn from_unix(seconds: i64, nanos: u32) -> (timestamp: Option<Timestamp>)
        ensures
            timestamp is Some <==> EARLIEST <= seconds <= LATEST && nanos < NANOS_PER_SECOND,
            timestamp is Some ==> timestamp.unwrap().seconds() == seconds
                && timestamp.unwrap().nanos() == nanos,
    {
        if EARLIEST <= seconds && seconds <= LATEST && nanos < NANOS_PER_SECOND {
            Some(Timestamp { seconds, nanos })
        } else {
            None
        }
    }

    /// The timestamp nearest to a second of the Unix clock and the
    /// nanoseconds into it: the same point in time where `from_unix` has
    /// one, else the first or the last second, or the last nanosecond of the
    /// second.
    pub fn nearest(seconds: i64, nanos: u32) -> (timestamp: Timestamp)
        ensures
            timestamp.seconds() == nearest_second(seconds as int),
            timestamp.nanos() == nearest_nanos(nanos as int),
    {
        let seconds: i64 = if seconds < EARLIEST {
            EARLIEST
        } else if seconds > LATEST {
            LATEST
        } else {
            seconds
        };
        let nanos: u32 = if nanos < NANOS_PER_SECOND {
            nanos
        } else {
            NANOS_PER_SECOND - 1
        };
        Timestamp { seconds, nanos }
    }

    /// The whole seconds since 1970-01-01T00:00:00Z.
    pub fn unix_seconds(&self) -> (seconds: i64)
        ensures
            seconds == self.seconds(),
            EARLIEST <= seconds <= LATEST,
    {
        proof {
            use_type_invariant(self);
        }
        self.seconds
    }

    /// The nanoseconds into the second.
    pub fn subsec_nanos(&self) -> (nanos: u32)
        ensures
            nanos == self.nanos(),
            nanos < NANOS_PER_SECOND,
    {
        proof {
            use_type_invariant(self);
        }
        self.nanos
    }

    /// The nanoseconds from `earlier` to this timestamp; negative where
    /// `earlier` is the later of the two.
    pub fn nanos_since(&self, earlier: &Timestamp) -> (elapsed: i128)
        ensures
            elapsed == self.nanoseconds() - earlier.nanoseconds(),
    {
        proof {
            use_type_invariant(self);
            use_type_invariant(earlier);
        }
        let seconds: i128 = self.seconds as i128 - earlier.seconds as i128;
        let nanos: i128 = self.nanos as i128 - earlier.nanos as i128;
        seconds * 1_000_000_000 + nanos
    }

    /// The timestamp as it stands in a label: RFC 3339, UTC, whole seconds.
    pub fn to_rfc3339(&self) -> (text: String)
        ensures
            text@ == rfc3339_utc(self.seconds()),
    {
        proof {
            use_type_invariant(self);
        }
        format_rfc3339_utc(self.seconds)
    }
}

} // verus!
