//! Points of time and spans between them, on top of the `chrono` crate.

use vstd::prelude::*;
use chrono::{DateTime, FixedOffset, NaiveDateTime, TimeDelta, Utc};

verus! {

/// The first second of the calendar's first year, counted from 1970.
pub const FIRST_SECOND: i64 = -8334601228800;

/// The last second of the calendar's last year, counted from 1970.
pub const LAST_SECOND: i64 = 8210266876799;

/// A point of time: seconds since the start of 1970 in UTC, and the nanoseconds behind them.
/// Inside a leap second the nanoseconds count on from the second before it.
#[derive(Clone, Copy, Debug, PartialEq, Eq, Structural)]
pub struct Moment {
    pub seconds: i64,
    pub nanos: u32,
}

impl Moment {
    pub open spec fn wf(self) -> bool {
        &&& FIRST_SECOND <= self.seconds <= LAST_SECOND
        &&& self.nanos < 1_000_000_000 || (self.nanos < 2_000_000_000 && self.seconds % 60 == 59)
    }

    /// This point of time comes before the other.
    pub open spec fn earlier(self, other: Moment) -> bool {
        self.seconds < other.seconds || (self.seconds == other.seconds && self.nanos < other.nanos)
    }

    pub fn before(self, other: Moment) -> (r: bool)
        ensures
            r == self.earlier(other),
    {
        self.seconds < other.seconds || (self.seconds == other.seconds && self.nanos < other.nanos)
    }
}

/// A point of time with the offset of the place's clock, in seconds east of UTC.
#[derive(Clone, Copy, Debug, PartialEq, Eq, Structural)]
pub struct ZonedMoment {
    pub moment: Moment,
    pub offset: i32,
}

impl ZonedMoment {
    pub open spec fn wf(self) -> bool {
        &&& self.moment.wf()
        &&& -86_400 < self.offset < 86_400
    }
}

/// A length of time in nanoseconds; negative for one that leads back.
#[derive(Clone, Copy, Debug, PartialEq, Eq, Structural)]
pub struct Span {
    pub nanos: i128,
}

/// The largest number of nanoseconds of a span.
pub const MAX_SPAN_NANOS: i128 = 9_223_372_036_854_775_807_000_000;

/// Division that drops the fraction.
pub open spec fn toward_zero(n: int, d: int) -> int
    recommends
        d > 0,
{
    if n < 0 {
        -((-n) / d)
    } else {
        n / d
    }
}

impl Span {
    pub open spec fn wf(self) -> bool {
        -MAX_SPAN_NANOS <= self.nanos <= MAX_SPAN_NANOS
    }

    pub open spec fn whole_seconds(self) -> int {
        toward_zero(self.nanos as int, 1_000_000_000)
    }

    pub open spec fn whole_minutes(self) -> int {
        toward_zero(self.whole_seconds(), 60)
    }

    pub open spec fn whole_milliseconds(self) -> int {
        toward_zero(self.nanos as int, 1_000_000)
    }

    pub fn seconds(seconds: i64) -> (r: Span)
        ensures
            r.nanos == seconds * 1_000_000_000,
    {
        Span { nanos: seconds as i128 * 1_000_000_000 }
    }

    pub fn minutes(minutes: i32) -> (r: Span)
        ensures
            r.nanos == minutes * 60_000_000_000,
            r.wf(),
    {
        Span { nanos: minutes as i128 * 60_000_000_000 }
    }

    pub fn num_seconds(self) -> (r: i64)
        requires
            self.wf(),
        ensures
            r == self.whole_seconds(),
    {
        if self.nanos < 0 {
            -(((-self.nanos) / 1_000_000_000) as i64)
        } else {
            (self.nanos / 1_000_000_000) as i64
        }
    }

    pub fn num_minutes(self) -> (r: i64)
        requires
            self.wf(),
        ensures
            r == self.whole_minutes(),
    {
        let seconds: i64 = self.num_seconds();
        if seconds < 0 {
            -((-seconds) / 60)
        } else {
            seconds / 60
        }
    }

    pub fn num_milliseconds(self) -> (r: i64)
        requires
            self.wf(),
        ensures
            r == self.whole_milliseconds(),
    {
        if self.nanos < 0 {
            -(((-self.nanos) / 1_000_000) as i64)
        } else {
            (self.nanos / 1_000_000) as i64
        }
    }
}

/// The seconds that a clock in UTC shows since midnight.
pub open spec fn time_of_day(m: Moment) -> int {
    m.seconds as int % 86_400
}

/// The nanoseconds from `start` to `end`. A leap second counts where the time of day passes it.
pub open spec fn elapsed_nanos(start: Moment, end: Moment) -> int {
    let leap: int = if time_of_day(end) > time_of_day(start) && start.nanos >= 1_000_000_000 {
        1
    } else if time_of_day(end) < time_of_day(start) && end.nanos >= 1_000_000_000 {
        -1
    } else {
        0
    };
    (end.seconds - start.seconds + leap) * 1_000_000_000 + (end.nanos - start.nanos)
}

/// The point of time `nanos` nanoseconds after `m`, as a count of nanoseconds since 1970.
/// A step that leaves a leap second goes on from the second before it or behind it.
pub open spec fn stepped_nanos(m: Moment, nanos: int) -> int {
    let seconds = toward_zero(nanos, 1_000_000_000);
    let base = m.seconds * 1_000_000_000 + m.nanos;
    if m.nanos < 1_000_000_000 || seconds < 0 {
        base + nanos
    } else {
        base - 1_000_000_000 + nanos
    }
}

/// A step of `nanos` nanoseconds from `m` ends inside the leap second that `m` is in.
pub open spec fn stays_in_leap(m: Moment, nanos: int) -> bool {
    &&& m.nanos >= 1_000_000_000
    &&& -1_000_000_000 < nanos < 1_000_000_000
    &&& m.nanos + nanos < 2_000_000_000
}

/// What stepping from `m` gives.
pub open spec fn stepped(m: Moment, nanos: int) -> Moment {
    if stays_in_leap(m, nanos) {
        Moment { seconds: m.seconds, nanos: (m.nanos + nanos) as u32 }
    } else {
        let at = stepped_nanos(m, nanos);
        Moment { seconds: (at / 1_000_000_000) as i64, nanos: (at % 1_000_000_000) as u32 }
    }
}

/// The step stays within the calendar.
pub open spec fn can_step(m: Moment, nanos: int) -> bool {
    stays_in_leap(m, nanos) || FIRST_SECOND <= stepped_nanos(m, nanos) / 1_000_000_000
        <= LAST_SECOND
}

/// Outside of leap seconds, the span to where a step leads is the step.
pub proof fn spans_are_what_was_stepped(m: Moment, nanos: int)
    requires
        m.wf(),
        m.nanos < 1_000_000_000,
        can_step(m, nanos),
    ensures
        elapsed_nanos(m, stepped(m, nanos)) == nanos,
        stepped(m, nanos).wf(),
        stepped(m, nanos).nanos < 1_000_000_000,
{
}

/// What an RFC 3339 text says: seconds since 1970 in UTC, nanoseconds, and the offset in seconds
/// east of UTC; nothing where the text is malformed.
pub uninterp spec fn rfc3339_parts(text: Seq<char>) -> Option<(i64, u32, i32)>;

/// `chrono::DateTime::parse_from_rfc3339`. Its results lie in the calendar, their offset is a
/// whole number of minutes below a day, and a leap second is the last of its minute.
#[verifier::external_body]
fn rfc3339(text: &str) -> (r: Option<(i64, u32, i32)>)
    ensures
        r == rfc3339_parts(text@),
        r matches Some(p) ==> {
            &&& (Moment { seconds: p.0, nanos: p.1 }).wf()
            &&& -86_400 < p.2 < 86_400
            &&& p.2 % 60 == 0
        },
{
    DateTime::parse_from_rfc3339(text)
        .ok()
        .map(|t| (t.timestamp(), t.timestamp_subsec_nanos(), t.offset().local_minus_utc()))
}

/// What a text without an offset says in the given pattern: seconds since 1970 on the clock that
/// wrote it, and nanoseconds; nothing where the text does not match.
pub uninterp spec fn naive_parts(text: Seq<char>, pattern: Seq<char>) -> Option<(i64, u32)>;

/// `chrono::NaiveDateTime::parse_from_str`. Its results lie in the calendar, and a leap second is
/// the last of its minute.
#[verifier::external_body]
fn naive(text: &str, pattern: &str) -> (r: Option<(i64, u32)>)
    ensures
        r == naive_parts(text@, pattern@),
        r matches Some(p) ==> (Moment { seconds: p.0, nanos: p.1 }).wf(),
{
    NaiveDateTime::parse_from_str(text, pattern)
        .ok()
        .map(|t| (t.and_utc().timestamp(), t.and_utc().timestamp_subsec_nanos()))
}

/// `chrono::DateTime::signed_duration_since`, as the whole seconds and the nanoseconds behind
/// them, both with the sign of the span.
#[verifier::external_body]
fn duration_parts(start: Moment, end: Moment) -> (r: (i64, i32))
    requires
        start.wf(),
        end.wf(),
    ensures
        r.0 * 1_000_000_000 + r.1 == elapsed_nanos(start, end),
{
    let from = DateTime::<Utc>::from_timestamp(start.seconds, start.nanos).unwrap();
    let to = DateTime::<Utc>::from_timestamp(end.seconds, end.nanos).unwrap();
    let span = to.signed_duration_since(from);
    (span.num_seconds(), span.subsec_nanos())
}

/// `chrono::DateTime::checked_add_signed` for a span of `seconds` and of `nanos` behind them:
/// the point of time reached, or nothing outside the calendar.
#[verifier::external_body]
fn step_parts(m: Moment, seconds: i64, nanos: u32) -> (r: Option<(i64, u32)>)
    requires
        m.wf(),
        nanos < 1_000_000_000,
        -MAX_SPAN_NANOS <= seconds * 1_000_000_000 + nanos <= MAX_SPAN_NANOS,
    ensures
        ({
            let span = seconds * 1_000_000_000 + nanos;
            match r {
                Some(p) => can_step(m, span) && stepped(m, span) == (Moment {
                    seconds: p.0,
                    nanos: p.1,
                }),
                None => !can_step(m, span),
            }
        }),
{
    let from = DateTime::<Utc>::from_timestamp(m.seconds, m.nanos).unwrap();
    from.checked_add_signed(TimeDelta::new(seconds, nanos).unwrap())
        .map(|t| (t.timestamp(), t.timestamp_subsec_nanos()))
}

/// A point of time written in a pattern by a clock `offset` seconds east of UTC.
pub uninterp spec fn pattern_text(
    seconds: i64,
    nanos: u32,
    offset: i32,
    pattern: Seq<char>,
) -> Seq<char>;

/// The patterns that the library writes points of time in.
pub open spec fn known_pattern(pattern: Seq<char>) -> bool {
    pattern == "%Y-%m-%d %H:%M:%S UTC"@ || pattern == "%H:%M UTC"@ || pattern
        == "%Y-%m-%d %H:%M %Z"@
}

/// `chrono::DateTime::format` on a fixed offset, written out.
#[verifier::external_body]
fn write_pattern(m: Moment, offset: i32, pattern: &str) -> (r: String)
    requires
        m.wf(),
        -86_400 < offset < 86_400,
        known_pattern(pattern@),
    ensures
        r@ == pattern_text(m.seconds, m.nanos, offset, pattern@),
{
    let zone = FixedOffset::east_opt(offset).unwrap();
    let at = DateTime::<Utc>::from_timestamp(m.seconds, m.nanos).unwrap();
    at.with_timezone(&zone).format(pattern).to_string()
}

/// A point of time as RFC 3339 text in UTC.
pub uninterp spec fn rfc3339_text(seconds: i64, nanos: u32) -> Seq<char>;

/// `chrono::DateTime::to_rfc3339` in UTC.
#[verifier::external_body]
fn write_rfc3339(m: Moment) -> (r: String)
    requires
        m.wf(),
    ensures
        r@ == rfc3339_text(m.seconds, m.nanos),
{
    DateTime::<Utc>::from_timestamp(m.seconds, m.nanos).unwrap().to_rfc3339()
}

/// `chrono::Utc::now`: some point of the calendar, never inside a leap second.
#[verifier::external_body]
fn clock_parts() -> (r: (i64, u32))
    ensures
        FIRST_SECOND <= r.0 <= LAST_SECOND,
        r.1 < 1_000_000_000,
{
    let now = Utc::now();
    (now.timestamp(), now.timestamp_subsec_nanos())
}

/// The present.
pub fn now() -> (r: Moment)
    ensures
        r.wf(),
        r.nanos < 1_000_000_000,
{
    let (seconds, nanos): (i64, u32) = clock_parts();
    Moment { seconds, nanos }
}

/// The span from `start` to `end`.
pub open spec fn span_between(start: Moment, end: Moment) -> Span {
    Span { nanos: elapsed_nanos(start, end) as i128 }
}

pub fn since(end: Moment, start: Moment) -> (r: Span)
    requires
        start.wf(),
        end.wf(),
    ensures
        r == span_between(start, end),
        r.nanos == elapsed_nanos(start, end),
        r.wf(),
{
    let (seconds, nanos): (i64, i32) = duration_parts(start, end);
    Span { nanos: seconds as i128 * 1_000_000_000 + nanos as i128 }
}

/// The point of time `span` after `m`, where the calendar has it.
pub fn after(m: Moment, span: Span) -> (r: Option<Moment>)
    requires
        m.wf(),
        span.wf(),
    ensures
        match r {
            Some(at) => can_step(m, span.nanos as int) && at == stepped(m, span.nanos as int)
                && at.wf(),
            None => !can_step(m, span.nanos as int),
        },
{
    let whole: i128 = if span.nanos >= 0 {
        span.nanos / 1_000_000_000
    } else {
        -((-span.nanos + 999_999_999) / 1_000_000_000)
    };
    let rest: i128 = span.nanos - whole * 1_000_000_000;
    let seconds: i64 = whole as i64;
    let nanos: u32 = rest as u32;
    match step_parts(m, seconds, nanos) {
        Some(p) => Some(Moment { seconds: p.0, nanos: p.1 }),
        None => None,
    }
}

/// A clock reading as a point of time, where the calendar has it.
pub open spec fn at_offset(parts: (i64, u32), offset: i32) -> Option<ZonedMoment> {
    if FIRST_SECOND <= parts.0 - offset <= LAST_SECOND {
        Some(
            ZonedMoment {
                moment: Moment { seconds: (parts.0 - offset) as i64, nanos: parts.1 },
                offset,
            },
        )
    } else {
        None
    }
}

/// The clock reading of a text without an offset.
pub open spec fn local_parts(text: Seq<char>) -> Option<(i64, u32)> {
    match naive_parts(text, "%Y-%m-%dT%H:%M:%S%.f"@) {
        Some(p) => Some(p),
        None => naive_parts(text, "%Y-%m-%d %H:%M:%S%.f"@),
    }
}

/// The point of time that a timestamp names, given what its text says: an explicit offset
/// decides, else the offset of the event that carries it, else UTC.
pub open spec fn timestamp_of(
    explicit: Option<(i64, u32, i32)>,
    local: Option<(i64, u32)>,
    context: Option<(i64, u32, i32)>,
) -> Option<ZonedMoment> {
    match explicit {
        Some(p) => Some(
            ZonedMoment { moment: Moment { seconds: p.0, nanos: p.1 }, offset: p.2 },
        ),
        None => match local {
            None => None,
            Some(l) => match context {
                Some(c) => at_offset(l, c.2),
                None => at_offset(l, 0),
            },
        },
    }
}

/// The point of time that a timestamp text names beside an event's own timestamp.
pub open spec fn timestamp_in(text: Seq<char>, context: Option<Seq<char>>) -> Option<ZonedMoment> {
    timestamp_of(
        rfc3339_parts(text),
        local_parts(text),
        match context {
            Some(c) => rfc3339_parts(c),
            None => None,
        },
    )
}

/// The point of time that a timestamp text names by itself.
pub open spec fn timestamp(text: Seq<char>) -> Option<ZonedMoment> {
    timestamp_in(text, None)
}

/// The UTC side of [`timestamp`].
pub open spec fn moment_of(text: Seq<char>) -> Option<Moment> {
    match timestamp(text) {
        Some(z) => Some(z.moment),
        None => None,
    }
}

/// Resolves what a timestamp's text says to a point of time.
pub fn resolve_timestamp(
    explicit: Option<(i64, u32, i32)>,
    local: Option<(i64, u32)>,
    context: Option<(i64, u32, i32)>,
) -> (r: Option<ZonedMoment>)
    ensures
        r == timestamp_of(explicit, local, context),
{
    if let Some(p) = explicit {
        return Some(ZonedMoment { moment: Moment { seconds: p.0, nanos: p.1 }, offset: p.2 });
    }
    let (seconds, nanos): (i64, u32) = match local {
        Some(l) => l,
        None => {
            return None;
        },
    };
    let offset: i32 = match context {
        Some(c) => c.2,
        None => 0,
    };
    let at: i128 = seconds as i128 - offset as i128;
    if (FIRST_SECOND as i128) <= at && at <= (LAST_SECOND as i128) {
        Some(ZonedMoment { moment: Moment { seconds: at as i64, nanos }, offset })
    } else {
        None
    }
}

fn parse_with(value: &str, context: Option<(i64, u32, i32)>) -> (r: Option<ZonedMoment>)
    requires
        context matches Some(c) ==> -86_400 < c.2 < 86_400 && c.2 % 60 == 0,
    ensures
        r == timestamp_of(rfc3339_parts(value@), local_parts(value@), context),
        r matches Some(z) ==> z.wf(),
{
    let explicit: Option<(i64, u32, i32)> = rfc3339(value);
    let local: Option<(i64, u32)> = match naive(value, "%Y-%m-%dT%H:%M:%S%.f") {
        Some(p) => Some(p),
        None => naive(value, "%Y-%m-%d %H:%M:%S%.f"),
    };
    resolve_timestamp(explicit, local, context)
}

/// Reads an RFC 3339 text as a point of time in UTC.
pub fn rfc3339_moment(text: &str) -> (r: Option<Moment>)
    ensures
        match rfc3339_parts(text@) {
            Some(p) => r == Some(Moment { seconds: p.0, nanos: p.1 }),
            None => r is None,
        },
        r matches Some(m) ==> m.wf(),
{
    match rfc3339(text) {
        Some(p) => Some(Moment { seconds: p.0, nanos: p.1 }),
        None => None,
    }
}

/// The characters of an optional text.
pub open spec fn opt_text(text: Option<&str>) -> Option<Seq<char>> {
    match text {
        Some(t) => Some(t@),
        None => None,
    }
}

/// Reads a timestamp beside the timestamp of the event that carries it.
pub fn parse_nina_timestamp_with_context(value: &str, context_event_time: Option<&str>) -> (r:
    Option<ZonedMoment>)
    ensures
        r == timestamp_in(value@, opt_text(context_event_time)),
        r matches Some(z) ==> z.wf(),
{
    let context: Option<(i64, u32, i32)> = match context_event_time {
        Some(time) => rfc3339(time),
        None => None,
    };
    parse_with(value, context)
}

/// Reads a timestamp that stands by itself.
pub fn parse_nina_timestamp(value: &str) -> (r: Option<ZonedMoment>)
    ensures
        r == timestamp(value@),
        r matches Some(z) ==> z.wf(),
{
    parse_with(value, None)
}

/// Reads a timestamp as a point of time in UTC.
pub fn parse_moment(value: &str) -> (r: Option<Moment>)
    ensures
        r == moment_of(value@),
        r matches Some(m) ==> m.wf(),
{
    match parse_nina_timestamp(value) {
        Some(z) => Some(z.moment),
        None => None,
    }
}

/// A point of time with date and seconds in UTC.
pub open spec fn utc_text(m: Moment) -> Seq<char> {
    pattern_text(m.seconds, m.nanos, 0, "%Y-%m-%d %H:%M:%S UTC"@)
}

/// Hours and minutes in UTC.
pub open spec fn utc_clock_text(m: Moment) -> Seq<char> {
    pattern_text(m.seconds, m.nanos, 0, "%H:%M UTC"@)
}

/// Date, hours, minutes and offset on the clock of the place.
pub open spec fn zoned_text(z: ZonedMoment) -> Seq<char> {
    pattern_text(z.moment.seconds, z.moment.nanos, z.offset, "%Y-%m-%d %H:%M %Z"@)
}

/// RFC 3339 text in UTC.
pub open spec fn stamp_text(m: Moment) -> Seq<char> {
    rfc3339_text(m.seconds, m.nanos)
}

pub fn format_utc_timestamp(m: Moment) -> (r: String)
    requires
        m.wf(),
    ensures
        r@ == utc_text(m),
{
    write_pattern(m, 0, "%Y-%m-%d %H:%M:%S UTC")
}

pub fn format_utc_clock(m: Moment) -> (r: String)
    requires
        m.wf(),
    ensures
        r@ == utc_clock_text(m),
{
    write_pattern(m, 0, "%H:%M UTC")
}

pub fn format_zoned(z: ZonedMoment) -> (r: String)
    requires
        z.wf(),
    ensures
        r@ == zoned_text(z),
{
    write_pattern(z.moment, z.offset, "%Y-%m-%d %H:%M %Z")
}

pub fn format_stamp(m: Moment) -> (r: String)
    requires
        m.wf(),
    ensures
        r@ == stamp_text(m),
{
    write_rfc3339(m)
}

} // verus!
