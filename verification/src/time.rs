//! Points in time as the scheduler sees them: an instant on the Unix time
//! scale together with the offset of the wall clock that shows it.
//!
//! The calendar itself is chrono's. What this module proves is the
//! arithmetic around it: ordering, shifting by whole seconds, the span
//! between two instants and the start of the next cycle.
//!
//! A leap second is held as chrono holds it: as second 59 of its minute with
//! a whole second of nanoseconds to spare. Such a time lies after all of
//! second 59 and before the second that follows.

use chrono::{DateTime, Datelike, FixedOffset, Local, MappedLocalTime, TimeDelta, TimeZone};
use vstd::arithmetic::div_mod::{lemma_fundamental_div_mod_converse, lemma_mod_multiples_vanish};
use vstd::prelude::*;

verus! {

/// The largest distance from the Unix epoch, in seconds, that a
/// [`LocalTime`] holds: about 31 700 years either way.
pub const TIMESTAMP_LIMIT: i64 = 1_000_000_000_000;

/// One second in nanoseconds.
pub const NANOS_PER_SECOND: u32 = 1_000_000_000;

/// The mathematical content of a [`LocalTime`].
pub struct TimeView {
    /// Whole seconds since 1970-01-01T00:00:00Z, leap seconds not counted.
    pub secs: int,
    /// Nanoseconds since that whole second: a second or more of them within
    /// a leap second.
    pub nanos: int,
    /// Seconds that the wall clock is ahead of UTC.
    pub offset: int,
}

impl TimeView {
    /// Whether this time lies before `other`: by the seconds, and within
    /// one second by the nanoseconds. Offsets play no part.
    pub open spec fn precedes(self, other: TimeView) -> bool {
        self.secs < other.secs || (self.secs == other.secs && self.nanos < other.nanos)
    }

    /// Whether the two are the same moment, whatever their offsets.
    pub open spec fn same_moment(self, other: TimeView) -> bool {
        self.secs == other.secs && self.nanos == other.nanos
    }

    /// Whether this time lies within a leap second.
    pub open spec fn in_leap_second(self) -> bool {
        self.nanos >= NANOS_PER_SECOND
    }

    /// Nanoseconds since the Unix epoch: the position on the time line of a
    /// time outside a leap second.
    pub open spec fn unix_nanos(self) -> int {
        self.secs * 1_000_000_000 + self.nanos
    }

    /// Seconds since the epoch as the wall clock counts them.
    pub open spec fn local_secs(self) -> int {
        self.secs + self.offset
    }

    /// The number of the local calendar day, 0 being 1970-01-01.
    pub open spec fn local_day(self) -> int {
        self.local_secs() / 86_400
    }

    /// Seconds since local midnight.
    pub open spec fn second_of_day(self) -> int {
        self.local_secs() % 86_400
    }

    /// What a [`LocalTime`] can hold: seconds within the limit, nanoseconds
    /// below one second, or below two in second 59 of a minute, and an
    /// offset of less than a day.
    pub open spec fn in_range(self) -> bool {
        &&& -TIMESTAMP_LIMIT <= self.secs <= TIMESTAMP_LIMIT
        &&& 0 <= self.nanos < 2 * NANOS_PER_SECOND
        &&& self.in_leap_second() ==> self.secs % 60 == 59
        &&& -86_400 < self.offset < 86_400
    }

    /// This time less a whole number of seconds, as chrono subtracts them:
    /// from within a leap second the count starts at the end of that second,
    /// and the result is outside it.
    pub open spec fn moved_back(self, seconds: int) -> TimeView {
        if seconds == 0 {
            self
        } else if self.in_leap_second() {
            TimeView {
                secs: self.secs + 1 - seconds,
                nanos: self.nanos - NANOS_PER_SECOND,
                offset: self.offset,
            }
        } else {
            TimeView { secs: self.secs - seconds, nanos: self.nanos, offset: self.offset }
        }
    }

    /// This time plus a whole number of seconds, as chrono adds them: from
    /// within a leap second the count starts at the start of that second,
    /// and the result is outside it.
    pub open spec fn moved_on(self, seconds: int) -> TimeView {
        if seconds == 0 {
            self
        } else if self.in_leap_second() {
            TimeView {
                secs: self.secs + seconds,
                nanos: self.nanos - NANOS_PER_SECOND,
                offset: self.offset,
            }
        } else {
            TimeView { secs: self.secs + seconds, nanos: self.nanos, offset: self.offset }
        }
    }
}

/// An instant with the UTC offset of the local clock at that instant.
///
/// Two values with the same seconds and nanoseconds are the same moment,
/// whatever their offsets: the offset only decides how the moment is written
/// down.
#[derive(Clone, Copy, Debug)]
pub struct LocalTime {
    secs: i64,
    nanos: u32,
    offset: i32,
}

impl View for LocalTime {
    type V = TimeView;

    closed spec fn view(&self) -> TimeView {
        TimeView { secs: self.secs as int, nanos: self.nanos as int, offset: self.offset as int }
    }
}

impl LocalTime {
    /// Every `LocalTime` is within the limit and well formed in its
    /// nanoseconds and its offset.
    #[verifier::type_invariant]
    closed spec fn within_limits(&self) -> bool {
        self@.in_range()
    }
}

/// The instant that chrono reads from an RFC 3339 date and time, as seconds
/// and nanoseconds since the epoch; `None` where chrono rejects the text.
pub uninterp spec fn rfc3339_instant(text: Seq<char>) -> Option<(int, int)>;

/// The span in nanoseconds that chrono finds from an earlier time to a later
/// one, each given by its seconds and nanoseconds; `None` where chrono finds
/// the span negative.
pub uninterp spec fn span_nanos(
    later_secs: int,
    later_nanos: int,
    earlier_secs: int,
    earlier_nanos: int,
) -> Option<int>;

/// The RFC 3339 text that chrono writes for an instant shown at an offset.
pub uninterp spec fn rfc3339_text(secs: int, nanos: int, offset: int) -> Seq<char>;

/// The text that chrono writes for an instant shown at an offset under a
/// strftime pattern.
pub uninterp spec fn formatted_text(
    secs: int,
    nanos: int,
    offset: int,
    pattern: Seq<char>,
) -> Seq<char>;

/// The year of the local calendar date, as chrono counts it, of an instant
/// shown at an offset.
pub uninterp spec fn local_year(secs: int, offset: int) -> int;

/// The month of the local calendar date, as chrono counts it from 1, of an
/// instant shown at an offset.
pub uninterp spec fn local_month(secs: int, offset: int) -> int;

/// The pattern of a calendar date: year, month and day.
pub open spec fn date_pattern() -> Seq<char> {
    "%Y-%m-%d"@
}

/// Calls `chrono::DateTime::parse_from_rfc3339` and takes the result apart
/// with `timestamp` and `timestamp_subsec_nanos`. Trusted: the pair that
/// comes back is what `rfc3339_instant` names for this text. Trusted of what
/// chrono reads: the year has four digits and the offset is less than a day,
/// so the seconds are within this module's limit; second 60 is read as
/// second 59 with a second of nanoseconds added, and no other reading has a
/// second of nanoseconds or more; the offset is a whole number of minutes,
/// so that second 59 stays second 59 in UTC.
#[verifier::external_body]
fn parse_rfc3339(text: &str) -> (parsed: Option<(i64, u32)>)
    ensures
        rfc3339_instant(text@) == match parsed {
            Some(p) => Some((p.0 as int, p.1 as int)),
            None => None,
        },
        parsed matches Some(p) ==> {
            &&& -TIMESTAMP_LIMIT <= p.0 <= TIMESTAMP_LIMIT
            &&& p.1 < 2 * NANOS_PER_SECOND
            &&& p.1 >= NANOS_PER_SECOND ==> p.0 as int % 60 == 59
        },
{
    match DateTime::parse_from_rfc3339(text) {
        Ok(t) => Some((t.timestamp(), t.timestamp_subsec_nanos())),
        Err(_) => None,
    }
}

/// Calls `chrono::DateTime::with_timezone` with `chrono::Local`: the offset
/// of this machine's time zone at the given instant. Trusted: only that the
/// offset is less than a day either way, as every `FixedOffset` is; which
/// offset it is depends on the machine.
#[verifier::external_body]
fn local_offset_at(secs: i64, nanos: u32) -> (offset: i32)
    requires
        -TIMESTAMP_LIMIT <= secs <= TIMESTAMP_LIMIT,
        nanos < 2 * NANOS_PER_SECOND,
        nanos >= NANOS_PER_SECOND ==> secs as int % 60 == 59,
    ensures
        -86_400 < offset < 86_400,
{
    DateTime::from_timestamp(secs, nanos).unwrap().with_timezone(&Local).offset().local_minus_utc()
}

/// Calls `chrono::DateTime::to_rfc3339` on the instant shown at its offset.
/// Trusted: the text is what `rfc3339_text` names for these three numbers.
#[verifier::external_body]
fn render_rfc3339(time: &LocalTime) -> (text: String)
    requires
        time@.in_range(),
    ensures
        text@ == rfc3339_text(time@.secs, time@.nanos, time@.offset),
{
    let zone = FixedOffset::east_opt(time.offset).unwrap();
    DateTime::from_timestamp(time.secs, time.nanos).unwrap().with_timezone(&zone).to_rfc3339()
}

/// Calls `chrono::DateTime::format` on the instant shown at its offset and
/// collects the text. Trusted: the text is what `formatted_text` names. The
/// pattern is held to the date pattern, which chrono accepts; on a pattern
/// that it rejects the call would panic.
#[verifier::external_body]
fn render_formatted(time: &LocalTime, pattern: &str) -> (text: String)
    requires
        time@.in_range(),
        pattern@ == date_pattern(),
    ensures
        text@ == formatted_text(time@.secs, time@.nanos, time@.offset, pattern@),
{
    let zone = FixedOffset::east_opt(time.offset).unwrap();
    let shown = DateTime::from_timestamp(time.secs, time.nanos).unwrap().with_timezone(&zone);
    shown.format(pattern).to_string()
}

/// Calls `chrono::Datelike::year` on the instant shown at its offset.
/// Trusted: the number is what `local_year` names.
#[verifier::external_body]
fn year_of(time: &LocalTime) -> (year: i32)
    requires
        time@.in_range(),
    ensures
        year == local_year(time@.secs, time@.offset),
{
    let zone = FixedOffset::east_opt(time.offset).unwrap();
    DateTime::from_timestamp(time.secs, time.nanos).unwrap().with_timezone(&zone).year()
}

/// Calls `chrono::Datelike::month` on the instant shown at its offset.
/// Trusted: the number is what `local_month` names.
#[verifier::external_body]
fn month_of(time: &LocalTime) -> (month: u32)
    requires
        time@.in_range(),
    ensures
        month == local_month(time@.secs, time@.offset),
{
    let zone = FixedOffset::east_opt(time.offset).unwrap();
    DateTime::from_timestamp(time.secs, time.nanos).unwrap().with_timezone(&zone).month()
}

/// Calls `chrono::DateTime::checked_sub_signed` on the instant as a
/// `DateTime<Local>`, with a `TimeDelta` of whole seconds, and takes the
/// result apart: seconds, nanoseconds, offset. Trusted: a result is the
/// moment that `moved_back` states, that is `seconds` earlier with the
/// nanoseconds kept, and from within a leap second counted from the end of
/// that second; its offset, less than a day, is what the machine's zone has
/// there; and chrono has a result wherever that moment is within this
/// module's limit.
#[verifier::external_body]
fn minus_seconds(time: &LocalTime, seconds: u32) -> (moved: Option<(i64, u32, i32)>)
    requires
        time@.in_range(),
    ensures
        moved matches Some(t) ==> {
            &&& t.0 == time@.moved_back(seconds as int).secs
            &&& t.1 == time@.moved_back(seconds as int).nanos
            &&& -86_400 < t.2 < 86_400
        },
        -TIMESTAMP_LIMIT <= time@.moved_back(seconds as int).secs ==> moved is Some,
{
    let start = DateTime::from_timestamp(time.secs, time.nanos)?.with_timezone(&Local);
    let t = start.checked_sub_signed(TimeDelta::try_seconds(i64::from(seconds))?)?;
    Some((t.timestamp(), t.timestamp_subsec_nanos(), t.offset().local_minus_utc()))
}

/// Calls `chrono::DateTime::checked_add_signed` on the instant as a
/// `DateTime<Local>`, with a `TimeDelta` of whole seconds, and takes the
/// result apart: seconds, nanoseconds, offset. Trusted: a result is the
/// moment that `moved_on` states, that is `seconds` later with the
/// nanoseconds kept, and from within a leap second counted from the start of
/// that second; its offset, less than a day, is what the machine's zone has
/// there; and chrono has a result wherever that moment is within this
/// module's limit.
#[verifier::external_body]
fn plus_seconds(time: &LocalTime, seconds: u32) -> (moved: Option<(i64, u32, i32)>)
    requires
        time@.in_range(),
    ensures
        moved matches Some(t) ==> {
            &&& t.0 == time@.moved_on(seconds as int).secs
            &&& t.1 == time@.moved_on(seconds as int).nanos
            &&& -86_400 < t.2 < 86_400
        },
        time@.moved_on(seconds as int).secs <= TIMESTAMP_LIMIT ==> moved is Some,
{
    let start = DateTime::from_timestamp(time.secs, time.nanos)?.with_timezone(&Local);
    let t = start.checked_add_signed(TimeDelta::try_seconds(i64::from(seconds))?)?;
    Some((t.timestamp(), t.timestamp_subsec_nanos(), t.offset().local_minus_utc()))
}

/// Calls `chrono::DateTime::signed_duration_since` and then
/// `chrono::TimeDelta::to_std`. Trusted: the span that comes back, in whole
/// seconds and nanoseconds below one second, is what `span_nanos` names; and
/// where neither time lies within a leap second, there is a span exactly
/// when `earlier` is not after `later`, and it is the distance between the
/// two.
#[verifier::external_body]
fn span_between(later: &LocalTime, earlier: &LocalTime) -> (span: Option<(u64, u32)>)
    requires
        later@.in_range(),
        earlier@.in_range(),
    ensures
        span_nanos(later@.secs, later@.nanos, earlier@.secs, earlier@.nanos) == match span {
            Some(d) => Some(d.0 * 1_000_000_000 + d.1),
            None => None,
        },
        span matches Some(d) ==> d.1 < NANOS_PER_SECOND,
        !later@.in_leap_second() && !earlier@.in_leap_second() ==> {
            &&& span is Some <==> earlier@.unix_nanos() <= later@.unix_nanos()
            &&& span matches Some(d) ==> d.0 * 1_000_000_000 + d.1 == later@.unix_nanos()
                - earlier@.unix_nanos()
        },
{
    let end = DateTime::from_timestamp(later.secs, later.nanos).unwrap();
    let start = DateTime::from_timestamp(earlier.secs, earlier.nanos).unwrap();
    match end.signed_duration_since(start).to_std() {
        Ok(d) => Some((d.as_secs(), d.subsec_nanos())),
        Err(_) => None,
    }
}

/// Calls `chrono::DateTime::date_naive`, `chrono::NaiveDate::succ_opt` and
/// `chrono::NaiveDate::and_hms_opt`: the given time of day on the calendar
/// day after the local date of `time`. Trusted: the result, counted in
/// seconds as the wall clock counts them, is that time of day on the next
/// local day; and there is one for every valid time of day.
#[verifier::external_body]
fn next_day_at(time: &LocalTime, hour: u32, minute: u32, second: u32) -> (local: Option<i64>)
    requires
        time@.in_range(),
    ensures
        local matches Some(l) ==> l == (time@.local_day() + 1) * 86_400 + hour * 3_600 + minute * 60
            + second,
        hour < 24 && minute < 60 && second < 60 ==> local is Some,
{
    let zone = FixedOffset::east_opt(time.offset)?;
    let today = DateTime::from_timestamp(time.secs, time.nanos)?.with_timezone(&zone).date_naive();
    let naive = today.succ_opt()?.and_hms_opt(hour, minute, second)?;
    Some(naive.and_utc().timestamp())
}

/// Calls `chrono::TimeZone::from_local_datetime` on `chrono::Local`: the
/// instant at which this machine's wall clock shows the given reading, taken
/// apart as seconds, nanoseconds and offset. Trusted: where chrono finds
/// exactly one such instant, the wall clock at its offset shows the reading,
/// on a whole second, and the offset is less than a day. Which instant it is,
/// and whether there is one, depends on the machine's zone.
#[verifier::external_body]
fn resolve_local(local_secs: i64) -> (resolved: Option<(i64, u32, i32)>)
    ensures
        resolved matches Some(t) ==> {
            &&& t.0 + t.2 == local_secs
            &&& t.1 == 0
            &&& -86_400 < t.2 < 86_400
        },
{
    let naive = DateTime::from_timestamp(local_secs, 0)?.naive_utc();
    match Local.from_local_datetime(&naive) {
        MappedLocalTime::Single(t) => Some(
            (t.timestamp(), t.timestamp_subsec_nanos(), t.offset().local_minus_utc()),
        ),
        MappedLocalTime::Ambiguous(_, _) => None,
        MappedLocalTime::None => None,
    }
}

/// Calls `chrono::Local::now` and takes the reading apart: seconds and
/// nanoseconds since the epoch, and the offset of the local clock. Nothing
/// is claimed of what the clock shows.
#[verifier::external_body]
fn read_clock() -> (reading: (i64, u32, i32)) {
    let t = Local::now();
    (t.timestamp(), t.timestamp_subsec_nanos(), t.offset().local_minus_utc())
}

/// How long to sleep: whole seconds and the nanoseconds beyond them.
#[derive(Clone, Copy, Debug, PartialEq, Eq, Structural)]
pub struct SleepSpan {
    pub secs: u64,
    pub nanos: u32,
}

impl SleepSpan {
    /// The length of the span in nanoseconds.
    pub open spec fn total_nanos(self) -> int {
        self.secs * 1_000_000_000 + self.nanos
    }
}

impl LocalTime {
    /// Builds a time from seconds and nanoseconds since the Unix epoch and
    /// the offset of the local clock in seconds east of UTC. `None` where
    /// one of the three is out of range, or where the nanoseconds make a
    /// leap second of a second that is not the last of its minute.
    pub fn new(secs: i64, nanos: u32, offset: i32) -> (time: Option<LocalTime>)
        ensures
            time is Some <==> (TimeView {
                secs: secs as int,
                nanos: nanos as int,
                offset: offset as int,
            }).in_range(),
            time matches Some(t) ==> t@ == (TimeView {
                secs: secs as int,
                nanos: nanos as int,
                offset: offset as int,
            }),
    {
        if secs < -TIMESTAMP_LIMIT || secs > TIMESTAMP_LIMIT || offset <= -86_400 || offset
            >= 86_400 {
            return None;
        }
        if nanos >= NANOS_PER_SECOND {
            if nanos >= 2 * NANOS_PER_SECOND || second_of_minute(secs) != 59 {
                return None;
            }
        }
        Some(LocalTime { secs, nanos, offset })
    }

    /// The current time on this machine's local clock. `None` where the
    /// clock shows a time that [`LocalTime::new`] refuses.
    pub fn now() -> (time: Option<LocalTime>)
        ensures
            time matches Some(t) ==> t@.in_range(),
    {
        let (secs, nanos, offset) = read_clock();
        LocalTime::new(secs, nanos, offset)
    }

    /// Whole seconds since the Unix epoch.
    pub fn timestamp(&self) -> (secs: i64)
        ensures
            secs == self@.secs,
            self@.in_range(),
    {
        proof {
            use_type_invariant(self);
        }
        self.secs
    }

    /// Nanoseconds since the last whole second.
    pub fn timestamp_subsec_nanos(&self) -> (nanos: u32)
        ensures
            nanos == self@.nanos,
            self@.in_range(),
    {
        proof {
            use_type_invariant(self);
        }
        self.nanos
    }

    /// Seconds that the local clock is ahead of UTC.
    pub fn utc_offset(&self) -> (offset: i32)
        ensures
            offset == self@.offset,
            self@.in_range(),
    {
        proof {
            use_type_invariant(self);
        }
        self.offset
    }

    /// Whether this time lies strictly before `other`, as chrono orders
    /// the two. Offsets play no part.
    pub fn is_before(&self, other: &LocalTime) -> (before: bool)
        ensures
            before == self@.precedes(other@),
    {
        self.secs < other.secs || (self.secs == other.secs && self.nanos < other.nanos)
    }

    /// Whether this time lies within a leap second.
    pub fn is_leap_second(&self) -> (leap: bool)
        ensures
            leap == self@.in_leap_second(),
    {
        self.nanos >= NANOS_PER_SECOND
    }

    /// Reads an RFC 3339 date and time and shows it on this machine's local
    /// clock. `None` where chrono does not read the text as such a date and
    /// time.
    pub fn parse_from_rfc3339(text: &str) -> (time: Option<LocalTime>)
        ensures
            time is Some <==> readable_instant(text@),
            time matches Some(t) ==> {
                &&& t@.in_range()
                &&& rfc3339_instant(text@) == Some((t@.secs, t@.nanos))
            },
    {
        match parse_rfc3339(text) {
            Some((secs, nanos)) => {
                let offset = local_offset_at(secs, nanos);
                Some(LocalTime { secs, nanos, offset })
            },
            None => None,
        }
    }

    /// Reads an RFC 3339 date and time and shows it at the given offset.
    /// `None` on the texts that `parse_from_rfc3339` refuses, and where the
    /// offset is a day or more.
    pub fn parse_from_rfc3339_at(text: &str, offset: i32) -> (time: Option<LocalTime>)
        ensures
            time is Some <==> readable_instant(text@) && -86_400 < offset < 86_400,
            time matches Some(t) ==> {
                &&& t@.in_range()
                &&& rfc3339_instant(text@) == Some((t@.secs, t@.nanos))
                &&& t@.offset == offset
            },
    {
        match parse_rfc3339(text) {
            Some((secs, nanos)) => LocalTime::new(secs, nanos, offset),
            None => None,
        }
    }

    /// Writes the time as RFC 3339 at its offset, such as
    /// `2023-01-03T09:00:00+08:00`.
    pub fn to_rfc3339(&self) -> (text: String)
        ensures
            text@ == rfc3339_text(self@.secs, self@.nanos, self@.offset),
    {
        proof {
            use_type_invariant(self);
        }
        render_rfc3339(self)
    }

    /// Writes the local calendar date as year, month and day, such as
    /// `2023-01-03`.
    pub fn date_string(&self) -> (text: String)
        ensures
            text@ == local_date_text(self@),
    {
        proof {
            use_type_invariant(self);
        }
        render_formatted(self, "%Y-%m-%d")
    }

    /// The year of the local calendar date.
    pub fn year(&self) -> (year: i32)
        ensures
            year == local_year(self@.secs, self@.offset),
    {
        proof {
            use_type_invariant(self);
        }
        year_of(self)
    }

    /// The month of the local calendar date, January being 1.
    pub fn month(&self) -> (month: u32)
        ensures
            month == local_month(self@.secs, self@.offset),
    {
        proof {
            use_type_invariant(self);
        }
        month_of(self)
    }

    /// The time `seconds` before this one, as the machine's zone shows it.
    /// `None` where that is beyond the limit.
    ///
    /// From within a leap second the seconds are counted from the end of
    /// that second, as chrono counts them: see [`TimeView::moved_back`].
    pub fn checked_sub_seconds(&self, seconds: u32) -> (moved: Option<LocalTime>)
        ensures
            moved is Some <==> -TIMESTAMP_LIMIT <= self@.moved_back(seconds as int).secs,
            moved matches Some(t) ==> {
                &&& t@.in_range()
                &&& t@.same_moment(self@.moved_back(seconds as int))
            },
    {
        proof {
            use_type_invariant(self);
        }
        match minus_seconds(self, seconds) {
            Some((secs, nanos, offset)) => LocalTime::new(secs, nanos, offset),
            None => None,
        }
    }

    /// The time `seconds` after this one, as the machine's zone shows it.
    /// `None` where that is beyond the limit.
    ///
    /// From within a leap second the seconds are counted from the start of
    /// that second, as chrono counts them: see [`TimeView::moved_on`].
    pub fn checked_add_seconds(&self, seconds: u32) -> (moved: Option<LocalTime>)
        ensures
            moved is Some <==> self@.moved_on(seconds as int).secs <= TIMESTAMP_LIMIT,
            moved matches Some(t) ==> {
                &&& t@.in_range()
                &&& t@.same_moment(self@.moved_on(seconds as int))
            },
    {
        proof {
            use_type_invariant(self);
        }
        match plus_seconds(self, seconds) {
            Some((secs, nanos, offset)) => LocalTime::new(secs, nanos, offset),
            None => None,
        }
    }

    /// How long it is from `now` until this time, as chrono measures it:
    /// `None` where chrono finds that this time has passed.
    ///
    /// Where neither time lies within a leap second, there is a span exactly
    /// when `now` is not after this time, it is the distance between the
    /// two, and it is zero at the very instant.
    pub fn time_until(&self, now: &LocalTime) -> (span: Option<SleepSpan>)
        ensures
            span_nanos(self@.secs, self@.nanos, now@.secs, now@.nanos) == match span {
                Some(d) => Some(d.total_nanos()),
                None => None,
            },
            span matches Some(d) ==> d.nanos < NANOS_PER_SECOND,
            !self@.in_leap_second() && !now@.in_leap_second() ==> {
                &&& span is Some <==> !self@.precedes(now@)
                &&& span matches Some(d) ==> d.total_nanos() == self@.unix_nanos()
                    - now@.unix_nanos()
            },
    {
        proof {
            use_type_invariant(self);
            use_type_invariant(now);
        }
        match span_between(self, now) {
            Some((secs, nanos)) => Some(SleepSpan { secs, nanos }),
            None => None,
        }
    }

    /// What the local clock shows at the given hour on the calendar day after
    /// the local date of this time, in seconds as the wall clock counts them
    /// from the epoch. `None` where the hour is no hour of the day.
    pub fn next_day_reading(&self, hour: u32) -> (reading: Option<i64>)
        ensures
            reading is Some <==> hour < 24,
            reading matches Some(l) ==> l == (self@.local_day() + 1) * 86_400 + hour * 3_600,
    {
        proof {
            use_type_invariant(self);
        }
        if hour >= 24 {
            return None;
        }
        next_day_at(self, hour, 0, 0)
    }

    /// The given hour on the calendar day after the local date of `now`, on
    /// the machine's local clock. `None` where the hour is no hour of the
    /// day, where the local clock shows that reading twice or never, or
    /// where it lies beyond the limit.
    ///
    /// The reading that the machine's zone is asked to place is that of
    /// [`LocalTime::next_day_reading`]; what the zone answers is held to the
    /// limit by [`LocalTime::new`]. A result lies after `now` unless the
    /// zone's offset grew by more than `hour` hours between the two.
    pub fn next_day_at_hour(now: &LocalTime, hour: u32) -> (start: Option<LocalTime>)
        ensures
            start matches Some(t) ==> {
                &&& t@.in_range()
                &&& hour < 24
                &&& t@.local_day() == now@.local_day() + 1
                &&& t@.second_of_day() == hour * 3_600
                &&& t@.nanos == 0
                &&& t@.offset - now@.offset <= hour * 3_600 ==> now@.precedes(t@)
            },
            hour >= 24 ==> start is None,
    {
        proof {
            use_type_invariant(now);
        }
        let reading = match now.next_day_reading(hour) {
            Some(l) => l,
            None => { return None; },
        };
        let start = match resolve_local(reading) {
            Some((secs, nanos, offset)) => LocalTime::new(secs, nanos, offset),
            None => None,
        };
        proof {
            if start is Some {
                lemma_next_day(now@, start->0@, hour as int);
            }
        }
        start
    }
}

/// Whether chrono reads `text` as an RFC 3339 date and time.
pub open spec fn readable_instant(text: Seq<char>) -> bool {
    rfc3339_instant(text) is Some
}

/// The second of its minute that a count of seconds falls on.
fn second_of_minute(secs: i64) -> (second: i64)
    requires
        -TIMESTAMP_LIMIT <= secs <= TIMESTAMP_LIMIT,
    ensures
        second == secs as int % 60,
{
    proof {
        lemma_mod_multiples_vanish(16_666_666_667, secs as int, 60);
    }
    (secs + 1_000_000_000_020) % 60
}

/// The local calendar date of a time, written as year, month and day.
pub open spec fn local_date_text(time: TimeView) -> Seq<char> {
    formatted_text(time.secs, time.nanos, time.offset, date_pattern())
}

/// A wall-clock reading of `hour` o'clock on the day after `now` lies on
/// that day, and after `now` unless the offset grew by more than `hour`
/// hours in between.
pub proof fn lemma_next_day(now: TimeView, start: TimeView, hour: int)
    requires
        0 <= hour < 24,
        start.local_secs() == (now.local_day() + 1) * 86_400 + hour * 3_600,
    ensures
        start.local_day() == now.local_day() + 1,
        start.second_of_day() == hour * 3_600,
        start.offset - now.offset <= hour * 3_600 ==> now.precedes(start),
{
    let day = now.local_day();
    assert(now.local_secs() == 86_400 * day + now.local_secs() % 86_400);
    assert(0 <= now.local_secs() % 86_400 < 86_400);
    let s = start.local_secs();
    assert(s == 86_400 * (day + 1) + hour * 3_600);
    assert(s / 86_400 == day + 1 && s % 86_400 == hour * 3_600) by {
        lemma_fundamental_div_mod_converse(s, 86_400, day + 1, hour * 3_600);
    }
}

} // verus!
