//! Instants and elapsed times, as plain values.
use vstd::prelude::*;

verus! {

/// The first second that the date library can represent (-9999-01-01T00:00:00Z).
pub const MIN_UNIX_SECONDS: i64 = -377705116800;

/// The last second that the date library can represent (9999-12-31T23:59:59Z).
pub const MAX_UNIX_SECONDS: i64 = 253402300799;

/// The largest UTC offset, in seconds, that the date library accepts (25:59:59).
pub const MAX_OFFSET_SECONDS: i32 = 93599;

/// An instant with the UTC offset it was written in.
#[derive(Clone, Copy, Debug, PartialEq, Eq)]
pub struct Timestamp {
    unix_seconds: i64,
    nanosecond: u32,
    offset_seconds: i32,
}

impl Timestamp {
    /// The instant is in the date library's range, in UTC and in its own offset.
    pub open spec fn valid_parts(unix_seconds: i64, nanosecond: u32, offset_seconds: i32) -> bool {
        &&& MIN_UNIX_SECONDS <= unix_seconds <= MAX_UNIX_SECONDS
        &&& nanosecond < 1_000_000_000
        &&& -MAX_OFFSET_SECONDS <= offset_seconds <= MAX_OFFSET_SECONDS
        &&& MIN_UNIX_SECONDS <= unix_seconds + offset_seconds <= MAX_UNIX_SECONDS
    }

    #[verifier::type_invariant]
    spec fn wf(self) -> bool {
        Self::valid_parts(self.unix_seconds, self.nanosecond, self.offset_seconds)
    }

    /// Seconds since 1970-01-01T00:00:00Z.
    pub closed spec fn seconds(self) -> int {
        self.unix_seconds as int
    }

    /// Nanoseconds past `seconds`.
    pub closed spec fn nanos(self) -> int {
        self.nanosecond as int
    }

    /// The UTC offset, in seconds.
    pub closed spec fn offset(self) -> int {
        self.offset_seconds as int
    }

    /// Builds an instant from its parts.
    pub fn new(unix_seconds: i64, nanosecond: u32, offset_seconds: i32) -> (r: Timestamp)
        requires
            Self::valid_parts(unix_seconds, nanosecond, offset_seconds),
        ensures
            r.seconds() == unix_seconds,
            r.nanos() == nanosecond,
            r.offset() == offset_seconds,
    {
        Timestamp { unix_seconds, nanosecond, offset_seconds }
    }

    /// Seconds since 1970-01-01T00:00:00Z.
    pub fn unix_seconds(&self) -> (r: i64)
        ensures
            r == self.seconds(),
            MIN_UNIX_SECONDS <= r <= MAX_UNIX_SECONDS,
    {
        proof {
            use_type_invariant(self);
        }
        self.unix_seconds
    }

    /// Nanoseconds past the second.
    pub fn nanosecond(&self) -> (r: u32)
        ensures
            r == self.nanos(),
            r < 1_000_000_000,
    {
        proof {
            use_type_invariant(self);
        }
        self.nanosecond
    }

    /// The UTC offset, in seconds.
    pub fn offset_seconds(&self) -> (r: i32)
        ensures
            r == self.offset(),
            -MAX_OFFSET_SECONDS <= r <= MAX_OFFSET_SECONDS,
            MIN_UNIX_SECONDS <= self.seconds() + r <= MAX_UNIX_SECONDS,
    {
        proof {
            use_type_invariant(self);
        }
        self.offset_seconds
    }
}

/// A signed length of time: whole seconds, and nanoseconds of the same sign.
#[derive(Clone, Copy, Debug, PartialEq, Eq)]
pub struct Elapsed {
    seconds: i64,
    nanoseconds: i32,
}

impl Elapsed {
    /// The nanoseconds are below one second and have the sign of the seconds.
    pub open spec fn valid_parts(seconds: i64, nanoseconds: i32) -> bool {
        &&& -1_000_000_000 < nanoseconds < 1_000_000_000
        &&& seconds > 0 ==> nanoseconds >= 0
        &&& seconds < 0 ==> nanoseconds <= 0
    }

    #[verifier::type_invariant]
    spec fn wf(self) -> bool {
        Self::valid_parts(self.seconds, self.nanoseconds)
    }

    /// The whole seconds.
    pub closed spec fn secs(self) -> int {
        self.seconds as int
    }

    /// The nanoseconds past the whole seconds.
    pub closed spec fn nanos(self) -> int {
        self.nanoseconds as int
    }

    /// Builds a length of time from its parts.
    pub fn new(seconds: i64, nanoseconds: i32) -> (r: Elapsed)
        requires
            Self::valid_parts(seconds, nanoseconds),
        ensures
            r.secs() == seconds,
            r.nanos() == nanoseconds,
    {
        Elapsed { seconds, nanoseconds }
    }

    /// `n` seconds.
    pub fn seconds(n: i64) -> (r: Elapsed)
        ensures
            r.secs() == n,
            r.nanos() == 0,
    {
        Elapsed { seconds: n, nanoseconds: 0 }
    }

    /// `n` minutes.
    pub fn minutes(n: i64) -> (r: Elapsed)
        requires
            i64::MIN <= n * 60 <= i64::MAX,
        ensures
            r.secs() == n * 60,
            r.nanos() == 0,
    {
        Elapsed { seconds: n * 60, nanoseconds: 0 }
    }

    /// `n` hours.
    pub fn hours(n: i64) -> (r: Elapsed)
        requires
            i64::MIN <= n * 3600 <= i64::MAX,
        ensures
            r.secs() == n * 3600,
            r.nanos() == 0,
    {
        Elapsed { seconds: n * 3600, nanoseconds: 0 }
    }

    /// `n` days.
    pub fn days(n: i64) -> (r: Elapsed)
        requires
            i64::MIN <= n * 86400 <= i64::MAX,
        ensures
            r.secs() == n * 86400,
            r.nanos() == 0,
    {
        Elapsed { seconds: n * 86400, nanoseconds: 0 }
    }

    /// `n` weeks.
    pub fn weeks(n: i64) -> (r: Elapsed)
        requires
            i64::MIN <= n * 604800 <= i64::MAX,
        ensures
            r.secs() == n * 604800,
            r.nanos() == 0,
    {
        Elapsed { seconds: n * 604800, nanoseconds: 0 }
    }

    /// The whole seconds.
    pub fn whole_seconds(&self) -> (r: i64)
        ensures
            r == self.secs(),
            r > 0 ==> self.nanos() >= 0,
            r < 0 ==> self.nanos() <= 0,
            -1_000_000_000 < self.nanos() < 1_000_000_000,
    {
        proof {
            use_type_invariant(self);
        }
        self.seconds
    }

    /// The nanoseconds past the whole seconds.
    pub fn subsec_nanoseconds(&self) -> (r: i32)
        ensures
            r == self.nanos(),
    {
        self.nanoseconds
    }
}

/// `n / d` rounded toward zero, as integer division in Rust does.
pub open spec fn div_trunc(n: int, d: int) -> int {
    if n >= 0 {
        n / d
    } else {
        -((-n) / d)
    }
}

/// The whole milliseconds of a length of time.
pub open spec fn whole_milliseconds(e: Elapsed) -> int {
    e.secs() * 1000 + div_trunc(e.nanos(), 1_000_000)
}

/// The time from `since` to `now`.
pub open spec fn difference(now: Timestamp, since: Timestamp) -> (int, int) {
    let s = now.seconds() - since.seconds();
    let n = now.nanos() - since.nanos();
    if s > 0 && n < 0 {
        (s - 1, n + 1_000_000_000)
    } else if s < 0 && n > 0 {
        (s + 1, n - 1_000_000_000)
    } else {
        (s, n)
    }
}

/// The time from `since` to `now`, as subtracting two date-times gives it.
pub fn elapsed_between(now: &Timestamp, since: &Timestamp) -> (r: Elapsed)
    ensures
        (r.secs(), r.nanos()) == difference(*now, *since),
{
    let a = now.unix_seconds();
    let b = since.unix_seconds();
    let an = now.nanosecond();
    let bn = since.nanosecond();
    let mut s: i64 = a - b;
    let mut n: i32 = (an as i32) - (bn as i32);
    if s > 0 && n < 0 {
        s = s - 1;
        n = n + 1_000_000_000;
    } else if s < 0 && n > 0 {
        s = s + 1;
        n = n - 1_000_000_000;
    }
    Elapsed { seconds: s, nanoseconds: n }
}

/// `OffsetDateTime::now_local`, falling back on `OffsetDateTime::now_utc` when
/// the local offset cannot be known: the current instant. Nothing is promised
/// of its value but that the date library can represent it.
#[verifier::external_body]
pub(crate) fn now() -> (r: Timestamp) {
    let t = time::OffsetDateTime::now_local().unwrap_or_else(|_| time::OffsetDateTime::now_utc());
    Timestamp {
        unix_seconds: t.unix_timestamp(),
        nanosecond: t.nanosecond(),
        offset_seconds: t.offset().whole_seconds(),
    }
}

/// The text that the date library writes for a date-time with the format
/// `[weekday] [day padding:none] [month repr:long] [year]`, from the instant
/// (seconds since 1970-01-01T00:00:00Z) and its UTC offset in seconds.
pub uninterp spec fn long_date_text(unix_seconds: int, offset_seconds: int) -> Seq<char>;

/// `OffsetDateTime::format` with the format
/// `[weekday] [day padding:none] [month repr:long] [year]`: the date written
/// as "Friday 8 July 2016". The text is named `long_date_text` of the instant
/// and its offset; the nanoseconds play no part in it.
#[verifier::external_body]
pub(crate) fn format_long_date(d: &Timestamp) -> (r: String)
    ensures
        r@ == long_date_text(d.seconds(), d.offset()),
{
    let format = time::format_description::parse(
        "[weekday] [day padding:none] [month repr:long] [year]",
    ).unwrap();
    let offset = time::UtcOffset::from_whole_seconds(d.offset_seconds).unwrap();
    let t = time::OffsetDateTime::from_unix_timestamp(d.unix_seconds).unwrap().to_offset(offset);
    t.format(&format).unwrap_or_default()
}

} // verus!
