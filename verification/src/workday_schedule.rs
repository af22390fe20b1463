//! The attendance plan of one calendar day, and the times at which to punch.

use crate::jitter::{bound_of, draw_jitter, jitter_bound};
use crate::json::{json_member, json_text, member, text_of};
use crate::punch::PunchType;
use crate::text::{before_first, split_before};
use crate::time::{
    readable_instant, rfc3339_instant, rfc3339_text, LocalTime, TimeView, TIMESTAMP_LIMIT,
};
use serde_json::Value;
use vstd::prelude::*;
use vstd::string::*;

verus! {

/// The mathematical content of a [`WorkdaySchedule`].
pub struct ScheduleView {
    /// The calendar date that the plan is for, as year, month and day.
    pub date: Seq<char>,
    /// When work starts, if it does.
    pub work_on_time: Option<TimeView>,
    /// When work ends, if it does.
    pub work_off_time: Option<TimeView>,
    /// A note on the day: a holiday's name, a make-up workday.
    pub memo: Option<Seq<char>>,
}

/// How a time of the plan is written: RFC 3339, or `N/A` where there is none.
pub open spec fn time_text(time: Option<TimeView>) -> Seq<char> {
    match time {
        Some(t) => rfc3339_text(t.secs, t.nanos, t.offset),
        None => "N/A"@,
    }
}

/// Whether `target` is the moment `seconds` away from `base` as chrono
/// counts them: earlier for a punch-in, later for a punch-out.
pub open spec fn moved_by(
    base: TimeView,
    punch_type: PunchType,
    seconds: int,
    target: TimeView,
) -> bool {
    match punch_type {
        PunchType::PunchIn => target.same_moment(base.moved_back(seconds)),
        PunchType::PunchOut => target.same_moment(base.moved_on(seconds)),
    }
}

/// The nearest moment that a punch may fall on: one second before the start
/// of work for a punch-in, one second after its end for a punch-out.
pub open spec fn nearest_punch(base: TimeView, punch_type: PunchType) -> TimeView {
    match punch_type {
        PunchType::PunchIn => base.moved_back(1),
        PunchType::PunchOut => base.moved_on(1),
    }
}

/// Whether `target` is `base` moved by a whole number of seconds between 1
/// and `bound`: for a base time `T` outside a leap second, a punch-in within
/// `[T - bound, T - 1]` and a punch-out within `[T + 1, T + bound]`, on the
/// nanosecond of `T`.
pub open spec fn within_jitter(
    base: TimeView,
    punch_type: PunchType,
    bound: int,
    target: TimeView,
) -> bool {
    let nearest = nearest_punch(base, punch_type);
    &&& bound >= 1
    &&& target.nanos == nearest.nanos
    &&& match punch_type {
        PunchType::PunchIn => nearest.secs - (bound - 1) <= target.secs <= nearest.secs,
        PunchType::PunchOut => nearest.secs <= target.secs <= nearest.secs + (bound - 1),
    }
}

/// Whether `base` moved by `seconds` for this punch is still within the
/// limit of [`LocalTime`].
pub open spec fn reachable(base: TimeView, punch_type: PunchType, seconds: int) -> bool {
    match punch_type {
        PunchType::PunchIn => -TIMESTAMP_LIMIT <= base.moved_back(seconds).secs,
        PunchType::PunchOut => base.moved_on(seconds).secs <= TIMESTAMP_LIMIT,
    }
}

/// The date of a calendar entry: what stands before the `T` in its `Date`.
pub open spec fn json_date(json: Value) -> Option<Seq<char>> {
    match json_text(json_member(json, "Date"@)) {
        Some(text) => before_first(text, 'T'),
        None => None,
    }
}

/// The text of a time in the `ShiftSchedule` of a calendar entry, where the
/// entry has a string there.
pub open spec fn json_shift_time(json: Value, key: Seq<char>) -> Option<Seq<char>> {
    json_text(json_member(json_member(json, "ShiftSchedule"@), key))
}

/// The `EventMemo` in the `CalendarEvent` of a calendar entry, where the
/// entry has a string there.
pub open spec fn json_memo(json: Value) -> Option<Seq<char>> {
    json_text(json_member(json_member(json, "CalendarEvent"@), "EventMemo"@))
}

/// Whether a calendar entry can be read as a plan: it has a date, and each
/// time that it gives is one that chrono reads as RFC 3339.
pub open spec fn is_schedule_json(json: Value) -> bool {
    &&& json_date(json) is Some
    &&& json_shift_time(json, "WorkOnTime"@) matches Some(text) ==> readable_instant(text)
    &&& json_shift_time(json, "WorkOffTime"@) matches Some(text) ==> readable_instant(text)
}

/// Whether `time` is the instant that `text` stands for: none where there is
/// no text.
pub open spec fn reads_as(text: Option<Seq<char>>, time: Option<TimeView>) -> bool {
    match text {
        Some(text) => time matches Some(t) && t.in_range() && rfc3339_instant(text) == Some(
            (t.secs, t.nanos),
        ),
        None => time is None,
    }
}

/// Whether `schedule` is the plan that the calendar entry `json` gives. The
/// offsets at which the times are shown are left open.
pub open spec fn describes(json: Value, schedule: ScheduleView) -> bool {
    &&& json_date(json) == Some(schedule.date)
    &&& schedule.memo == json_memo(json)
    &&& reads_as(json_shift_time(json, "WorkOnTime"@), schedule.work_on_time)
    &&& reads_as(json_shift_time(json, "WorkOffTime"@), schedule.work_off_time)
}

/// Whether `time`, if there is one, is shown at `offset`.
pub open spec fn shown_at(time: Option<TimeView>, offset: int) -> bool {
    time matches Some(t) ==> t.offset == offset
}

impl ScheduleView {
    /// A work day has a start or an end of work.
    pub open spec fn is_work_day(self) -> bool {
        self.work_on_time is Some || self.work_off_time is Some
    }

    /// The label of the day, with the memo in brackets where there is one.
    pub open spec fn description(self) -> Seq<char> {
        let label = if self.is_work_day() {
            "工作日"@
        } else {
            "休假日"@
        };
        match self.memo {
            Some(memo) => label + "("@ + memo + ")"@,
            None => label,
        }
    }

    /// The whole plan on one line: date, description, start and end of work.
    pub open spec fn text(self) -> Seq<char> {
        self.date + " "@ + self.description() + " "@ + time_text(self.work_on_time) + " "@
            + time_text(self.work_off_time)
    }

    /// The time that a punch is measured from: the start of work for a
    /// punch-in, its end for a punch-out.
    pub open spec fn base_time(self, punch_type: PunchType) -> Option<TimeView> {
        match punch_type {
            PunchType::PunchIn => self.work_on_time,
            PunchType::PunchOut => self.work_off_time,
        }
    }
}

/// One calendar day's attendance plan.
#[derive(Debug)]
pub struct WorkdaySchedule {
    date: String,
    work_on_time: Option<LocalTime>,
    work_off_time: Option<LocalTime>,
    memo: Option<String>,
}

impl View for WorkdaySchedule {
    type V = ScheduleView;

    closed spec fn view(&self) -> ScheduleView {
        ScheduleView {
            date: self.date@,
            work_on_time: match self.work_on_time {
                Some(t) => Some(t@),
                None => None,
            },
            work_off_time: match self.work_off_time {
                Some(t) => Some(t@),
                None => None,
            },
            memo: match self.memo {
                Some(m) => Some(m@),
                None => None,
            },
        }
    }
}

/// Writes a time of the plan: RFC 3339, or `N/A` where there is none.
fn write_time(time: &Option<LocalTime>) -> (text: String)
    ensures
        text@ == time_text(
            match *time {
                Some(t) => Some(t@),
                None => None,
            },
        ),
{
    match time {
        Some(t) => t.to_rfc3339(),
        None => String::from_str("N/A"),
    }
}

/// Reads the time that a JSON value gives as RFC 3339 text, shown at
/// `utc_offset`, or on the machine's local clock where that is `None`.
///
/// A value that is no string gives no time: `Some(None)`. A string that
/// cannot be read gives `None`.
fn parse_as_local_time(json: &Value, utc_offset: Option<i32>) -> (time: Option<Option<LocalTime>>)
    ensures
        time is Some <==> (json_text(*json) matches Some(text) ==> readable_instant(text) && (
        utc_offset matches Some(o) ==> -86_400 < o < 86_400)),
        time matches Some(t) ==> {
            &&& reads_as(
                json_text(*json),
                match t {
                    Some(t) => Some(t@),
                    None => None,
                },
            )
            &&& utc_offset matches Some(o) ==> shown_at(
                match t {
                    Some(t) => Some(t@),
                    None => None,
                },
                o as int,
            )
        },
{
    match text_of(json) {
        Some(text) => {
            let parsed = match utc_offset {
                Some(offset) => LocalTime::parse_from_rfc3339_at(text, offset),
                None => LocalTime::parse_from_rfc3339(text),
            };
            match parsed {
                Some(t) => Some(Some(t)),
                None => None,
            }
        },
        None => Some(None),
    }
}

impl WorkdaySchedule {
    /// Reads a calendar entry, its times shown at `utc_offset`, or on the
    /// machine's local clock where that is `None`.
    fn read(json: &Value, utc_offset: Option<i32>) -> (schedule: Option<WorkdaySchedule>)
        ensures
            schedule is Some <==> is_schedule_json(*json) && (utc_offset matches Some(o) ==> -86_400
                < o < 86_400),
            schedule matches Some(s) ==> {
                &&& describes(*json, s@)
                &&& utc_offset matches Some(o) ==> shown_at(s@.work_on_time, o as int) && shown_at(
                    s@.work_off_time,
                    o as int,
                )
            },
    {
        match utc_offset {
            Some(o) => {
                if o <= -86_400 || o >= 86_400 {
                    return None;
                }
            },
            None => {},
        }
        let date = match text_of(member(json, "Date")) {
            Some(text) => match split_before(text, 'T') {
                Some(date) => date,
                None => { return None; },
            },
            None => { return None; },
        };
        let shift = member(json, "ShiftSchedule");
        let work_on_time = match parse_as_local_time(member(shift, "WorkOnTime"), utc_offset) {
            Some(time) => time,
            None => { return None; },
        };
        let work_off_time = match parse_as_local_time(member(shift, "WorkOffTime"), utc_offset) {
            Some(time) => time,
            None => { return None; },
        };
        let memo = match text_of(member(member(json, "CalendarEvent"), "EventMemo")) {
            Some(memo) => Some(String::from_str(memo)),
            None => None,
        };
        Some(WorkdaySchedule { date, work_on_time, work_off_time, memo })
    }

    /// Whether a calendar entry can be read as a plan.
    pub fn is_readable(json: &Value) -> (readable: bool)
        ensures
            readable == is_schedule_json(*json),
    {
        WorkdaySchedule::read(json, None).is_some()
    }

    /// The plan that a calendar entry of the attendance service gives: the
    /// date from its `Date`, the start and end of work from its
    /// `ShiftSchedule`, shown on the machine's local clock, and the memo from
    /// its `CalendarEvent`.
    ///
    /// The entry must be readable: see [`WorkdaySchedule::try_from_json`].
    pub fn from_json(json: &Value) -> (schedule: WorkdaySchedule)
        requires
            is_schedule_json(*json),
        ensures
            describes(*json, schedule@),
    {
        WorkdaySchedule::read(json, None).unwrap()
    }

    /// The plan that a calendar entry gives, or `None` where the entry has no
    /// date or gives a time that cannot be read.
    pub fn try_from_json(json: &Value) -> (schedule: Option<WorkdaySchedule>)
        ensures
            schedule is Some <==> is_schedule_json(*json),
            schedule matches Some(s) ==> describes(*json, s@),
    {
        if WorkdaySchedule::is_readable(json) {
            Some(WorkdaySchedule::from_json(json))
        } else {
            None
        }
    }

    /// The plan that a calendar entry gives, its times shown at a fixed
    /// offset in seconds east of UTC rather than on the machine's clock.
    /// `None` where the entry cannot be read or the offset is a day or more.
    pub fn from_json_at_offset(json: &Value, utc_offset: i32) -> (schedule: Option<WorkdaySchedule>)
        ensures
            schedule is Some <==> is_schedule_json(*json) && -86_400 < utc_offset < 86_400,
            schedule matches Some(s) ==> {
                &&& describes(*json, s@)
                &&& shown_at(s@.work_on_time, utc_offset as int)
                &&& shown_at(s@.work_off_time, utc_offset as int)
            },
    {
        WorkdaySchedule::read(json, Some(utc_offset))
    }

    /// A plan from its four parts.
    pub fn new(
        date: String,
        work_on_time: Option<LocalTime>,
        work_off_time: Option<LocalTime>,
        memo: Option<String>,
    ) -> (schedule: WorkdaySchedule)
        ensures
            schedule@ == (ScheduleView {
                date: date@,
                work_on_time: match work_on_time {
                    Some(t) => Some(t@),
                    None => None,
                },
                work_off_time: match work_off_time {
                    Some(t) => Some(t@),
                    None => None,
                },
                memo: match memo {
                    Some(m) => Some(m@),
                    None => None,
                },
            }),
    {
        WorkdaySchedule { date, work_on_time, work_off_time, memo }
    }

    /// Whether the day has a start or an end of work.
    pub fn is_work_day(&self) -> (work_day: bool)
        ensures
            work_day == self@.is_work_day(),
    {
        self.work_on_time.is_some() || self.work_off_time.is_some()
    }

    /// The label of the day, followed by the memo in brackets where there is
    /// one.
    pub fn description(&self) -> (text: String)
        ensures
            text@ == self@.description(),
    {
        let mut text = if self.is_work_day() {
            String::from_str("工作日")
        } else {
            String::from_str("休假日")
        };
        match &self.memo {
            Some(memo) => {
                text.append("(");
                text.append(memo.as_str());
                text.append(")");
            },
            None => {},
        }
        text
    }

    /// The calendar date that the plan is for.
    pub fn get_date(&self) -> (date: &str)
        ensures
            date@ == self@.date,
    {
        self.date.as_str()
    }

    /// When work starts, if it does.
    pub fn work_on_time(&self) -> (time: Option<LocalTime>)
        ensures
            self@.work_on_time == match time {
                Some(t) => Some(t@),
                None => None,
            },
    {
        self.work_on_time
    }

    /// When work ends, if it does.
    pub fn work_off_time(&self) -> (time: Option<LocalTime>)
        ensures
            self@.work_off_time == match time {
                Some(t) => Some(t@),
                None => None,
            },
    {
        self.work_off_time
    }

    /// The note on the day, if there is one.
    pub fn memo(&self) -> (memo: Option<&str>)
        ensures
            self@.memo == match memo {
                Some(m) => Some(m@),
                None => None,
            },
    {
        match &self.memo {
            Some(m) => Some(m.as_str()),
            None => None,
        }
    }

    /// The whole plan on one line: date, description, start of work and end
    /// of work, with `N/A` for a time that the day does not have.
    pub fn to_string(&self) -> (text: String)
        ensures
            text@ == self@.text(),
    {
        let mut text = self.date.clone();
        text.append(" ");
        text.append(self.description().as_str());
        text.append(" ");
        text.append(write_time(&self.work_on_time).as_str());
        text.append(" ");
        text.append(write_time(&self.work_off_time).as_str());
        text
    }

    /// The time of a punch for a jitter that is already drawn: the start of
    /// work moved `jitter_second` seconds earlier for a punch-in, the end of
    /// work moved as much later for a punch-out.
    ///
    /// `None` where the day lacks that time, where the jitter is zero, and
    /// where the moved time is beyond the limit of [`LocalTime`].
    pub fn punch_time_with(&self, punch_type: PunchType, jitter_second: u32) -> (target: Option<LocalTime>)
        ensures
            target is Some <==> {
                &&& jitter_second >= 1
                &&& self@.base_time(punch_type) matches Some(base)
                &&& reachable(base, punch_type, jitter_second as int)
            },
            target matches Some(t) ==> {
                &&& t@.in_range()
                &&& self@.base_time(punch_type) matches Some(base)
                &&& moved_by(base, punch_type, jitter_second as int, t@)
            },
    {
        if jitter_second == 0 {
            return None;
        }
        match punch_type {
            PunchType::PunchIn => match &self.work_on_time {
                Some(base) => base.checked_sub_seconds(jitter_second),
                None => None,
            },
            PunchType::PunchOut => match &self.work_off_time {
                Some(base) => base.checked_add_seconds(jitter_second),
                None => None,
            },
        }
    }

    /// The time of a punch with a freshly drawn jitter of 1 to `jitter`
    /// seconds, 60 where `jitter` is `None`.
    ///
    /// There is a result wherever the day has the time in question, the
    /// bound is at least 1 and the whole window is within the limit of
    /// [`LocalTime`]. There is none where the day lacks the time or the bound
    /// is 0.
    pub fn checked_punch_time_with_jitter(
        &self,
        punch_type: PunchType,
        jitter: Option<u32>,
    ) -> (target: Option<LocalTime>)
        ensures
            target matches Some(t) ==> {
                &&& t@.in_range()
                &&& jitter_bound(jitter) >= 1
                &&& self@.base_time(punch_type) matches Some(base)
                &&& within_jitter(base, punch_type, jitter_bound(jitter), t@)
            },
            ({
                &&& jitter_bound(jitter) >= 1
                &&& self@.base_time(punch_type) matches Some(base)
                &&& reachable(base, punch_type, jitter_bound(jitter))
            }) ==> target is Some,
    {
        let bound = bound_of(jitter);
        if bound == 0 {
            return None;
        }
        let jitter_second = draw_jitter(bound);
        self.punch_time_with(punch_type, jitter_second)
    }

    /// The time at which to punch: for a punch-in the start of work less a
    /// random 1 to `jitter` seconds, for a punch-out the end of work plus as
    /// much; `jitter` is 60 where `None`. A punch-in is so never late and a
    /// punch-out never early, and neither falls on the scheduled time itself.
    ///
    /// The day must have the time in question, the bound must be at least 1,
    /// and the whole window must be within the limit of [`LocalTime`].
    pub fn get_punch_time_with_jitter(
        &self,
        punch_type: PunchType,
        jitter: Option<u32>,
    ) -> (target: LocalTime)
        requires
            jitter_bound(jitter) >= 1,
            self@.base_time(punch_type) matches Some(base) && reachable(
                base,
                punch_type,
                jitter_bound(jitter),
            ),
        ensures
            target@.in_range(),
            self@.base_time(punch_type) matches Some(base) && within_jitter(
                base,
                punch_type,
                jitter_bound(jitter),
                target@,
            ),
    {
        self.checked_punch_time_with_jitter(punch_type, jitter).unwrap()
    }
}

/// A time moved by a jitter between 1 and the bound lies within the window
/// of that bound.
pub proof fn lemma_moved_within_jitter(
    base: TimeView,
    punch_type: PunchType,
    bound: int,
    seconds: int,
    target: TimeView,
)
    requires
        1 <= seconds <= bound,
        moved_by(base, punch_type, seconds, target),
    ensures
        within_jitter(base, punch_type, bound, target),
{
}

/// Every time within the window of a bound is the base moved by some jitter
/// between 1 and the bound.
pub proof fn lemma_within_jitter_is_moved(
    base: TimeView,
    punch_type: PunchType,
    bound: int,
    target: TimeView,
) -> (seconds: int)
    requires
        within_jitter(base, punch_type, bound, target),
    ensures
        1 <= seconds <= bound,
        moved_by(base, punch_type, seconds, target),
{
    let nearest = nearest_punch(base, punch_type);
    match punch_type {
        PunchType::PunchIn => nearest.secs - target.secs + 1,
        PunchType::PunchOut => target.secs - nearest.secs + 1,
    }
}

/// A punch time never falls on the scheduled time: within the window of any
/// bound, a punch-in lies before the start of work and a punch-out after the
/// end of work. For a scheduled time outside a leap second the distance is
/// at least one second and at most `bound` seconds.
pub proof fn lemma_jittered_time_is_off_schedule(
    base: TimeView,
    punch_type: PunchType,
    bound: int,
    target: TimeView,
)
    requires
        base.in_range(),
        within_jitter(base, punch_type, bound, target),
    ensures
        !target.same_moment(base),
        !target.in_leap_second(),
        punch_type == PunchType::PunchIn ==> target.precedes(base),
        punch_type == PunchType::PunchOut ==> base.precedes(target),
        (punch_type == PunchType::PunchIn && !base.in_leap_second()) ==> base.unix_nanos() - bound
            * 1_000_000_000 <= target.unix_nanos() <= base.unix_nanos() - 1_000_000_000,
        (punch_type == PunchType::PunchOut && !base.in_leap_second()) ==> base.unix_nanos()
            + 1_000_000_000 <= target.unix_nanos() <= base.unix_nanos() + bound * 1_000_000_000,
{
}

/// No window has room for a punch time where the bound is zero: a jitter of
/// zero seconds is never drawn.
pub proof fn lemma_no_jitter_without_bound(base: TimeView, punch_type: PunchType, target: TimeView)
    ensures
        !within_jitter(base, punch_type, 0, target),
{
}

} // verus!
