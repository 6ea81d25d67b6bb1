//! Moments in UTC, the arithmetic and the text that `chrono` gives them, and time windows.

use chrono::{DateTime, TimeDelta, Utc};
use vstd::prelude::*;

verus! {

/// The first second that a date can stand for: -262143-01-01 00:00:00.
pub const MIN_SECONDS: i64 = -8334601228800;

/// The last second that a date can stand for: +262142-12-31 23:59:59.
pub const MAX_SECONDS: i64 = 8210266876799;

/// The seconds of a day.
pub const DAY_SECONDS: i64 = 86400;

/// Date and time down to the millisecond.
pub const MILLIS_PATTERN: &'static str = "%Y-%m-%d %H:%M:%S%.3f";

/// Date and time down to the second.
pub const SECONDS_PATTERN: &'static str = "%Y-%m-%d %H:%M:%S";

/// A moment in UTC: whole seconds since 1970-01-01 00:00:00, and nanoseconds on top of them.
/// A leap second has the second before it in `secs` and a full second and more in `nanos`.
#[derive(Clone, Copy, PartialEq, Eq, Debug, Structural)]
pub struct Timestamp {
    pub secs: i64,
    pub nanos: u32,
}

/// `secs` lies in the range that a date can stand for.
pub open spec fn in_range(secs: int) -> bool {
    MIN_SECONDS <= secs <= MAX_SECONDS
}

impl Timestamp {
    /// The moment exists: it lies in the range of dates, and a leap second ends a minute.
    pub open spec fn valid(self) -> bool {
        &&& in_range(self.secs as int)
        &&& self.nanos < 1_000_000_000 || (self.nanos < 2_000_000_000 && (self.secs as int) % 60
            == 59)
    }

    /// The seconds of the moment `delta` seconds later. Going back from a leap second starts
    /// at its end.
    pub open spec fn moved_secs(self, delta: int) -> int {
        if self.nanos >= 1_000_000_000 && delta < 0 {
            self.secs + 1 + delta
        } else {
            self.secs + delta
        }
    }

    /// The nanoseconds of the moment `delta` seconds later. Leaving a leap second drops the
    /// extra second.
    pub open spec fn moved_nanos(self, delta: int) -> int {
        if self.nanos >= 1_000_000_000 && delta != 0 {
            self.nanos - 1_000_000_000
        } else {
            self.nanos as int
        }
    }

    /// `later` is the moment `delta` seconds after this one.
    pub open spec fn moves_to(self, delta: int, later: Timestamp) -> bool {
        &&& later.secs == self.moved_secs(delta)
        &&& later.nanos == self.moved_nanos(delta)
    }

    /// The moment's text down to the millisecond.
    pub open spec fn millis_text(self) -> Seq<char> {
        date_time_text(self.secs, self.nanos, MILLIS_PATTERN@)
    }

    /// The moment's text down to the second.
    pub open spec fn seconds_text(self) -> Seq<char> {
        date_time_text(self.secs, self.nanos, SECONDS_PATTERN@)
    }
}

/// The text that `chrono` gives a moment in UTC under a pattern.
pub uninterp spec fn date_time_text(secs: i64, nanos: u32, pattern: Seq<char>) -> Seq<char>;

/// A character of a date and time: a digit, a sign, a separator.
pub open spec fn is_date_time_char(c: char) -> bool {
    '0' <= c <= '9' || c == '-' || c == '+' || c == ':' || c == '.' || c == ' '
}

/// All characters of `s` are those of dates and times.
pub open spec fn is_date_time(s: Seq<char>) -> bool {
    forall|i: int| 0 <= i < s.len() ==> is_date_time_char(#[trigger] s[i])
}

/// `chrono::DateTime::format` on a moment in UTC, written out. The text depends on the moment
/// and the pattern alone. Under the two patterns of this library it is made of digits, the
/// separators of the pattern, and a sign before a year outside 0 to 9999.
/// Which calendar date a moment falls on is left to `chrono`.
#[verifier::external_body]
fn format_date_time(at: Timestamp, pattern: &str) -> (r: String)
    requires
        at.valid(),
        pattern@ == MILLIS_PATTERN@ || pattern@ == SECONDS_PATTERN@,
    ensures
        r@ == date_time_text(at.secs, at.nanos, pattern@),
        is_date_time(r@),
{
    DateTime::<Utc>::from_timestamp(at.secs, at.nanos).unwrap().format(pattern).to_string()
}

/// `chrono::DateTime::checked_add_signed` with a number of whole seconds: the moment so many
/// seconds later, or `None` where that lies outside the range of dates.
#[verifier::external_body]
fn checked_add_seconds(at: Timestamp, seconds: i64) -> (r: Option<Timestamp>)
    requires
        at.valid(),
    ensures
        r is Some <==> in_range(at.moved_secs(seconds as int)),
        r matches Some(later) ==> at.moves_to(seconds as int, later),
{
    let moment = DateTime::<Utc>::from_timestamp(at.secs, at.nanos)?;
    let later = moment.checked_add_signed(TimeDelta::try_seconds(seconds)?)?;
    Some(Timestamp { secs: later.timestamp(), nanos: later.timestamp_subsec_nanos() })
}

/// `chrono::DateTime::checked_sub_signed` with a number of whole seconds: the moment so many
/// seconds earlier, or `None` where that lies outside the range of dates.
#[verifier::external_body]
fn checked_sub_seconds(at: Timestamp, seconds: i64) -> (r: Option<Timestamp>)
    requires
        at.valid(),
    ensures
        r is Some <==> in_range(at.moved_secs(-(seconds as int))),
        r matches Some(earlier) ==> at.moves_to(-(seconds as int), earlier),
{
    let moment = DateTime::<Utc>::from_timestamp(at.secs, at.nanos)?;
    let earlier = moment.checked_sub_signed(TimeDelta::try_seconds(seconds)?)?;
    Some(Timestamp { secs: earlier.timestamp(), nanos: earlier.timestamp_subsec_nanos() })
}

/// Whether a second lies in the range that a date can stand for.
pub fn is_in_range(secs: i128) -> (r: bool)
    ensures
        r == in_range(secs as int),
        r <==> -8334601228800 <= secs <= 8210266876799,
{
    MIN_SECONDS as i128 <= secs && secs <= MAX_SECONDS as i128
}

impl Timestamp {
    /// Whether the moment exists.
    pub fn is_valid(self) -> (r: bool)
        ensures
            r == self.valid(),
            r <==> -8334601228800 <= self.secs <= 8210266876799 && (self.nanos < 1_000_000_000 || (
            self.nanos < 2_000_000_000 && (self.secs as int) % 60 == 59)),
    {
        if self.secs < MIN_SECONDS || self.secs > MAX_SECONDS {
            return false;
        }
        // 60 divides the shift, which makes the number positive.
        let positive: i64 = self.secs + 8400000000000;
        self.nanos < 1_000_000_000 || (self.nanos < 2_000_000_000 && positive % 60 == 59)
    }

    /// The seconds of the moment `delta` seconds later, whether or not a date can stand for
    /// them.
    pub fn moved_seconds(self, delta: i64) -> (r: i128)
        ensures
            r == self.moved_secs(delta as int),
    {
        let sum: i128 = self.secs as i128 + delta as i128;
        if self.nanos >= 1_000_000_000 && delta < 0 {
            sum + 1
        } else {
            sum
        }
    }

    /// The moment `seconds` later.
    pub fn plus_seconds(self, seconds: i64) -> (r: Timestamp)
        requires
            self.valid(),
            in_range(self.moved_secs(seconds as int)),
        ensures
            self.moves_to(seconds as int, r),
            r.valid(),
    {
        checked_add_seconds(self, seconds).unwrap()
    }

    /// The moment `seconds` earlier.
    pub fn minus_seconds(self, seconds: i64) -> (r: Timestamp)
        requires
            self.valid(),
            in_range(self.moved_secs(-(seconds as int))),
        ensures
            self.moves_to(-(seconds as int), r),
            r.valid(),
    {
        checked_sub_seconds(self, seconds).unwrap()
    }

    /// The moment's text down to the millisecond.
    pub fn format_millis(self) -> (r: String)
        requires
            self.valid(),
        ensures
            r@ == self.millis_text(),
            r@ == date_time_text(self.secs, self.nanos, "%Y-%m-%d %H:%M:%S%.3f"@),
            is_date_time(r@),
    {
        format_date_time(self, MILLIS_PATTERN)
    }

    /// The moment's text down to the second.
    pub fn format_seconds(self) -> (r: String)
        requires
            self.valid(),
        ensures
            r@ == self.seconds_text(),
            r@ == date_time_text(self.secs, self.nanos, "%Y-%m-%d %H:%M:%S"@),
            is_date_time(r@),
    {
        format_date_time(self, SECONDS_PATTERN)
    }
}

/// Moving an ordinary moment adds the seconds and keeps the nanoseconds. A leap second moves
/// forward as the second it follows does, and back as the second behind it does.
pub proof fn moving_adds_the_seconds(at: Timestamp, delta: int, later: Timestamp)
    requires
        at.moves_to(delta, later),
    ensures
        at.nanos < 1_000_000_000 || delta == 0 ==> later.secs == at.secs + delta && later.nanos
            == at.nanos,
        at.nanos >= 1_000_000_000 && delta > 0 ==> later.secs == at.secs + delta && later.nanos
            == at.nanos - 1_000_000_000,
        at.nanos >= 1_000_000_000 && delta < 0 ==> later.secs == at.secs + 1 + delta && later.nanos
            == at.nanos - 1_000_000_000,
{
}

/// Moving an ordinary moment twice is moving it by both at once, and moving it there and back
/// changes nothing.
pub proof fn moves_add_up(at: Timestamp, a: int, mid: Timestamp, b: int, end: Timestamp)
    requires
        at.nanos < 1_000_000_000,
        at.moves_to(a, mid),
        mid.moves_to(b, end),
    ensures
        at.moves_to(a + b, end),
        a + b == 0 ==> end == at,
{
}

/// A stretch of time, both ends included.
#[derive(Clone, Copy, PartialEq, Eq, Debug, Structural)]
pub struct TimeWindow {
    pub start: Timestamp,
    pub end: Timestamp,
}

impl TimeWindow {
    /// Both ends exist.
    pub open spec fn valid(self) -> bool {
        self.start.valid() && self.end.valid()
    }

    /// The window of `days` days that begins `offset` seconds before `base`.
    pub open spec fn is_around(self, base: Timestamp, days: int, offset: int) -> bool {
        &&& base.moves_to(-offset, self.start)
        &&& self.start.moves_to(days * DAY_SECONDS, self.end)
    }
}

/// A window of at least a day that begins less than its own length before `base` fits into
/// the range of dates.
pub open spec fn window_fits(base: Timestamp, days: int, offset: int) -> bool {
    &&& 1 <= days
    &&& 0 <= offset < days * DAY_SECONDS
    &&& in_range(base.moved_secs(-offset))
    &&& in_range(base.moved_secs(-offset) + days * DAY_SECONDS)
}

/// The window of `window_days` days that begins `offset_seconds` before `base`.
pub fn time_window(base: Timestamp, window_days: i64, offset_seconds: i64) -> (r: TimeWindow)
    requires
        base.valid(),
        window_fits(base, window_days as int, offset_seconds as int),
    ensures
        r.valid(),
        r.is_around(base, window_days as int, offset_seconds as int),
        r.start.secs <= base.secs < r.end.secs,
        r.end.secs - r.start.secs == window_days * 86400,
        base.nanos < 1_000_000_000 ==> base.secs - r.start.secs == offset_seconds,
{
    let window_seconds: i64 = window_days * DAY_SECONDS;
    let start = base.minus_seconds(offset_seconds);
    let end = start.plus_seconds(window_seconds);
    TimeWindow { start, end }
}

/// A window around a moment holds the moment and is exactly as long as asked for.
pub proof fn window_holds_its_base(w: TimeWindow, base: Timestamp, days: int, offset: int)
    requires
        base.valid(),
        window_fits(base, days, offset),
        w.is_around(base, days, offset),
    ensures
        w.start.secs <= base.secs < w.end.secs,
        w.end.secs - w.start.secs == days * DAY_SECONDS,
        w.end.secs - w.start.secs == days * 86400,
        base.nanos < 1_000_000_000 ==> base.secs - w.start.secs == offset && w.start.nanos
            == base.nanos && w.end.nanos == base.nanos,
{
}

} // verus!
