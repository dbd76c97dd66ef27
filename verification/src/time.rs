//! Instants and zone offsets, and their rendering as RFC 3339 text.

use vstd::prelude::*;

verus! {

/// Unix time of `0000-01-01T00:00:00Z`, the first instant RFC 3339 can write.
pub const MIN_UNIX_SECONDS: i64 = -62_167_219_200;

/// Unix time of `9999-12-31T23:59:59Z`, the last second RFC 3339 can write.
pub const MAX_UNIX_SECONDS: i64 = 253_402_300_799;

/// Number of nanoseconds in one second.
pub const NANOS_PER_SECOND: u32 = 1_000_000_000;

/// Number of seconds in one day; a zone offset is strictly smaller in size.
pub const SECONDS_PER_DAY: i32 = 86_400;

/// The text that chrono's `DateTime::to_rfc3339_opts` writes, with whole
/// seconds and `Z` for a zero offset, for the instant `secs` seconds and
/// `nanos` nanoseconds after the Unix epoch, seen `offset` seconds east of UTC.
pub uninterp spec fn rfc3339_text(secs: int, nanos: int, offset: int) -> Seq<char>;

/// An instant in UTC: whole seconds since the Unix epoch and the nanoseconds
/// within that second.
///
/// The seconds lie within the years 0000 to 9999. A nanosecond count of a
/// billion or more stands for a leap second and occurs only in the last second
/// of a minute.
#[derive(Clone, Copy, Debug, PartialEq, Eq)]
pub struct Timestamp {
    secs: i64,
    nanos: u32,
}

impl Timestamp {
    /// Whether `secs` and `nanos` denote an instant that a `Timestamp` can hold.
    pub open spec fn representable(secs: int, nanos: int) -> bool {
        &&& MIN_UNIX_SECONDS <= secs <= MAX_UNIX_SECONDS
        &&& 0 <= nanos < 2 * NANOS_PER_SECOND
        &&& nanos >= NANOS_PER_SECOND ==> secs % 60 == 59
    }

    #[verifier::type_invariant]
    spec fn inv(self) -> bool {
        Self::representable(self.secs as int, self.nanos as int)
    }

    /// Seconds since the Unix epoch.
    pub closed spec fn secs(self) -> int {
        self.secs as int
    }

    /// Nanoseconds since the start of the second.
    pub closed spec fn nanos(self) -> int {
        self.nanos as int
    }

    /// The timestamp `secs` seconds and `nanos` nanoseconds after the Unix
    /// epoch, if it is representable.
    pub fn new(secs: i64, nanos: u32) -> (made: Option<Timestamp>)
        ensures
            made is Some <==> Self::representable(secs as int, nanos as int),
            made matches Some(t) ==> t.secs() == secs && t.nanos() == nanos,
    {
        if secs < MIN_UNIX_SECONDS || secs > MAX_UNIX_SECONDS {
            return None;
        }
        if nanos >= 2 * NANOS_PER_SECOND {
            return None;
        }
        let since_first: i64 = secs - MIN_UNIX_SECONDS;
        if nanos >= NANOS_PER_SECOND && since_first % 60 != 59 {
            return None;
        }
        Some(Timestamp { secs, nanos })
    }

    /// Seconds since the Unix epoch.
    pub fn unix_seconds(&self) -> (secs: i64)
        ensures
            secs == self.secs(),
            MIN_UNIX_SECONDS <= secs <= MAX_UNIX_SECONDS,
    {
        proof {
            use_type_invariant(self);
        }
        self.secs
    }

    /// Nanoseconds since the start of the second.
    pub fn subsec_nanos(&self) -> (nanos: u32)
        ensures
            nanos == self.nanos(),
            Self::representable(self.secs(), self.nanos()),
    {
        proof {
            use_type_invariant(self);
        }
        self.nanos
    }

    /// Renders the instant as seen in `zone`: RFC 3339 with whole seconds and
    /// an explicit zone suffix.
    pub fn to_rfc3339(&self, zone: UtcOffset) -> (text: String)
        ensures
            text@ == rfc3339_text(self.secs(), self.nanos(), zone.seconds()),
    {
        proof {
            use_type_invariant(self);
            use_type_invariant(zone);
        }
        format_rfc3339(self.secs, self.nanos, zone.seconds)
    }
}

/// The difference between local time and UTC, in seconds east of UTC.
///
/// It is strictly less than a day in either direction.
#[derive(Clone, Copy, Debug, PartialEq, Eq)]
pub struct UtcOffset {
    seconds: i32,
}

impl UtcOffset {
    /// Whether `seconds` is a possible zone offset.
    pub open spec fn in_range(seconds: int) -> bool {
        -SECONDS_PER_DAY < seconds < SECONDS_PER_DAY
    }

    #[verifier::type_invariant]
    spec fn inv(self) -> bool {
        Self::in_range(self.seconds as int)
    }

    /// Seconds east of UTC.
    pub closed spec fn seconds(self) -> int {
        self.seconds as int
    }

    /// The offset `seconds` east of UTC (west, if negative), if it is in range.
    pub fn east(seconds: i32) -> (made: Option<UtcOffset>)
        ensures
            made is Some <==> Self::in_range(seconds as int),
            made matches Some(zone) ==> zone.seconds() == seconds,
    {
        if -SECONDS_PER_DAY < seconds && seconds < SECONDS_PER_DAY {
            Some(UtcOffset { seconds })
        } else {
            None
        }
    }

    /// UTC itself.
    pub fn utc() -> (zone: UtcOffset)
        ensures
            zone.seconds() == 0,
    {
        UtcOffset { seconds: 0 }
    }

    /// Seconds east of UTC.
    pub fn local_minus_utc(&self) -> (seconds: i32)
        ensures
            seconds == self.seconds(),
            Self::in_range(seconds as int),
    {
        proof {
            use_type_invariant(self);
        }
        self.seconds
    }
}

/// Calls chrono's `DateTime::to_rfc3339_opts` with `SecondsFormat::Secs` and
/// `use_z` set, on the instant built by `DateTime::from_timestamp` and moved
/// to the zone built by `FixedOffset::east_opt`.
///
/// The contract claims that the text depends on the three numbers alone. The
/// preconditions keep to the inputs on which both constructors return a value
/// and the local date stays inside chrono's range.
#[verifier::external_body]
fn format_rfc3339(secs: i64, nanos: u32, offset: i32) -> (text: String)
    requires
        Timestamp::representable(secs as int, nanos as int),
        UtcOffset::in_range(offset as int),
    ensures
        text@ == rfc3339_text(secs as int, nanos as int, offset as int),
{
    let zone = chrono::FixedOffset::east_opt(offset).unwrap();
    let instant = chrono::DateTime::from_timestamp(secs, nanos).unwrap();
    instant.with_timezone(&zone).to_rfc3339_opts(chrono::SecondsFormat::Secs, true)
}

} // verus!
