//! Instants and spans of time, counted in nanoseconds.
//!
//! An instant is a point on the UTC time line, held as the number of
//! nanoseconds since the Unix epoch. Every `Timestamp` lies between the first
//! instant of the year -9999 and the last instant of the year 9999, the range
//! of the calendar types that callers convert from.

use vstd::prelude::*;

verus! {

/// Nanoseconds in one second.
pub const NANOS_PER_SECOND: i128 = 1_000_000_000;

/// Nanoseconds in one minute.
pub const NANOS_PER_MINUTE: i128 = 60_000_000_000;

/// Nanoseconds in one day.
pub const NANOS_PER_DAY: i128 = 86_400_000_000_000;

/// The first representable instant: -9999-01-01T00:00:00Z.
pub const MIN_UNIX_NANOS: i128 = -377_705_116_800_000_000_000;

/// The last representable instant: 9999-12-31T23:59:59.999999999Z.
pub const MAX_UNIX_NANOS: i128 = 253_402_300_799_999_999_999;

/// The first instant that RFC 3339 can write: 0000-01-01T00:00:00Z.
pub const MIN_RFC3339_UNIX_NANOS: i128 = -62_167_219_200_000_000_000;

/// Whether `unix_nanos` is an instant that a `Timestamp` can hold.
pub open spec fn representable(unix_nanos: int) -> bool {
    MIN_UNIX_NANOS <= unix_nanos <= MAX_UNIX_NANOS
}

/// Whether RFC 3339 has a text for the instant `unix_nanos`: its year lies
/// between 0000 and 9999.
pub open spec fn rfc3339_representable(unix_nanos: int) -> bool {
    MIN_RFC3339_UNIX_NANOS <= unix_nanos <= MAX_UNIX_NANOS
}

/// The quotient of `a` by the positive `b`, rounded toward zero.
pub open spec fn div_toward_zero(a: int, b: int) -> int {
    if a >= 0 {
        a / b
    } else {
        -((-a) / b)
    }
}

/// A 64-bit number read without its sign: a negative number is counted down
/// from 2^64.
pub open spec fn unsigned_count(value: int) -> int {
    if value >= 0 {
        value
    } else {
        value + 0x1_0000_0000_0000_0000
    }
}

/// A signed span of time in nanoseconds.
#[derive(Clone, Copy, Debug, PartialEq, Eq, Structural)]
pub struct Duration {
    pub nanos: i128,
}

impl View for Duration {
    type V = int;

    open spec fn view(&self) -> int {
        self.nanos as int
    }
}

impl Duration {
    /// The span of `nanos` nanoseconds.
    pub fn nanoseconds(nanos: i128) -> (r: Duration)
        ensures
            r@ == nanos,
    {
        Duration { nanos }
    }

    /// The span of `seconds` seconds.
    pub fn seconds(seconds: i64) -> (r: Duration)
        ensures
            r@ == seconds * NANOS_PER_SECOND,
    {
        let wide: i128 = seconds as i128;
        Duration { nanos: wide * NANOS_PER_SECOND }
    }

    /// The span of `days` days of 86 400 seconds.
    pub fn days(days: i64) -> (r: Duration)
        ensures
            r@ == days * NANOS_PER_DAY,
    {
        let wide: i128 = days as i128;
        Duration { nanos: wide * NANOS_PER_DAY }
    }
}

/// An instant between the years -9999 and 9999.
#[derive(Clone, Copy, Debug, PartialEq, Eq, Structural)]
pub struct Timestamp {
    unix_nanos: i128,
}

impl View for Timestamp {
    type V = int;

    /// Nanoseconds since the Unix epoch.
    closed spec fn view(&self) -> int {
        self.unix_nanos as int
    }
}

impl Timestamp {
    #[verifier::type_invariant]
    spec fn in_range(self) -> bool {
        representable(self.unix_nanos as int)
    }

    /// The instant `unix_nanos` nanoseconds after the Unix epoch. It is a
    /// `Timestamp` of executable code only where `representable(unix_nanos)`.
    pub closed spec fn at(unix_nanos: int) -> Timestamp {
        Timestamp { unix_nanos: unix_nanos as i128 }
    }

    /// The instant at a count of nanoseconds has that count.
    pub proof fn lemma_at_view(unix_nanos: int)
        requires
            representable(unix_nanos),
        ensures
            Timestamp::at(unix_nanos)@ == unix_nanos,
    {
    }

    /// The instant `unix_nanos` nanoseconds after the Unix epoch, if it lies
    /// between the years -9999 and 9999.
    pub fn from_unix_nanos(unix_nanos: i128) -> (r: Option<Timestamp>)
        ensures
            r is Some <==> representable(unix_nanos as int),
            r matches Some(t) ==> t@ == unix_nanos && t == Timestamp::at(unix_nanos as int),
    {
        if MIN_UNIX_NANOS <= unix_nanos && unix_nanos <= MAX_UNIX_NANOS {
            Some(Timestamp { unix_nanos })
        } else {
            None
        }
    }

    /// The instant `unix_seconds` whole seconds after the Unix epoch, if it
    /// lies between the years -9999 and 9999.
    pub fn from_unix_seconds(unix_seconds: i64) -> (r: Option<Timestamp>)
        ensures
            r is Some <==> representable(unix_seconds * NANOS_PER_SECOND),
            r matches Some(t) ==> t@ == unix_seconds * NANOS_PER_SECOND,
    {
        let wide: i128 = unix_seconds as i128;
        Timestamp::from_unix_nanos(wide * NANOS_PER_SECOND)
    }

    /// Nanoseconds since the Unix epoch.
    pub fn unix_nanos(self) -> (r: i128)
        ensures
            r == self@,
            representable(r as int),
    {
        proof {
            use_type_invariant(self);
        }
        self.unix_nanos
    }

    /// Whether `self` lies strictly before `other`.
    pub fn is_before(self, other: Timestamp) -> (r: bool)
        ensures
            r == (self@ < other@),
    {
        self.unix_nanos < other.unix_nanos
    }

    /// The instant that lies `span` after `self`, if it is representable.
    pub fn checked_add(self, span: Duration) -> (r: Option<Timestamp>)
        ensures
            r is Some <==> representable(self@ + span@),
            r matches Some(t) ==> t@ == self@ + span@ && t == Timestamp::at(self@ + span@),
    {
        proof {
            use_type_invariant(self);
        }
        match self.unix_nanos.checked_add(span.nanos) {
            Some(sum) => Timestamp::from_unix_nanos(sum),
            None => None,
        }
    }

    /// The span from `earlier` to `self`; negative where `self` lies before
    /// `earlier`.
    pub fn since(self, earlier: Timestamp) -> (r: Duration)
        ensures
            r@ == self@ - earlier@,
    {
        proof {
            use_type_invariant(self);
            use_type_invariant(earlier);
        }
        Duration { nanos: self.unix_nanos - earlier.unix_nanos }
    }

    /// The whole minutes that have passed from `earlier` to `self`, rounded
    /// toward zero; negative where `self` lies before `earlier`.
    pub fn whole_minutes_since(self, earlier: Timestamp) -> (r: i64)
        ensures
            r == div_toward_zero(self@ - earlier@, NANOS_PER_MINUTE as int),
    {
        proof {
            use_type_invariant(self);
            use_type_invariant(earlier);
        }
        let span: i128 = self.unix_nanos - earlier.unix_nanos;
        if span >= 0 {
            let minutes: i128 = span / NANOS_PER_MINUTE;
            minutes as i64
        } else {
            let minutes: i128 = (-span) / NANOS_PER_MINUTE;
            (-minutes) as i64
        }
    }

    /// The whole minutes from `earlier` to `self` as a count without sign,
    /// as a meter records them.
    pub fn unsigned_minutes_since(self, earlier: Timestamp) -> (r: u64)
        ensures
            r == unsigned_count(div_toward_zero(self@ - earlier@, NANOS_PER_MINUTE as int)),
    {
        let minutes: i64 = self.whole_minutes_since(earlier);
        if minutes >= 0 {
            minutes as u64
        } else {
            let below: i64 = -(minutes + 1);
            u64::MAX - (below as u64)
        }
    }

    /// The RFC 3339 text of the instant in UTC, where its year is not
    /// negative.
    pub fn to_rfc3339(self) -> (r: Option<String>)
        ensures
            r is Some <==> rfc3339_representable(self@),
            r matches Some(text) ==> text@ == rfc3339_text(self@),
    {
        proof {
            use_type_invariant(self);
        }
        if self.unix_nanos < MIN_RFC3339_UNIX_NANOS {
            None
        } else {
            format_rfc3339(self.unix_nanos)
        }
    }
}

/// The text that RFC 3339 gives the instant `unix_nanos` nanoseconds after
/// the Unix epoch, written in UTC.
pub uninterp spec fn rfc3339_text(unix_nanos: int) -> Seq<char>;

/// `time::OffsetDateTime::from_unix_timestamp_nanos` followed by
/// `time::OffsetDateTime::format` with `Rfc3339`. The first accepts the
/// instants between the years -9999 and 9999 and yields them in UTC; the
/// second refuses a year outside 0000 to 9999 and an offset with seconds, and
/// nothing else. The text is named, not spelled out.
#[verifier::external_body]
fn format_rfc3339(unix_nanos: i128) -> (r: Option<String>)
    ensures
        r is Some <==> rfc3339_representable(unix_nanos as int),
        r matches Some(text) ==> text@ == rfc3339_text(unix_nanos as int),
{
    let at = time::OffsetDateTime::from_unix_timestamp_nanos(unix_nanos).ok()?;
    at.format(&time::format_description::well_known::Rfc3339).ok()
}

} // verus!
