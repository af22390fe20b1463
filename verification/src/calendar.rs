//! The month's calendar as the attendance service sends it: reading the
//! plans out of a response, finding the plan of today, and listing them.

use crate::json::{elements_of, json_elements, json_member, member};
use crate::text::{
    decimal, decimal_text, field, fields_of, same_text, signed_decimal, signed_decimal_text,
};
use crate::time::{local_month, local_year, LocalTime, TimeView};
use crate::workday_schedule::{describes, is_schedule_json, ScheduleView, WorkdaySchedule};
use serde_json::Value;
use vstd::prelude::*;
use vstd::string::*;

verus! {

/// Why a response gave no plans.
#[derive(Clone, Copy, Debug, PartialEq, Eq, Structural)]
pub enum CalendarError {
    /// The response holds no array under `Data` and `Calendars`.
    MissingCalendars,
    /// The entry at this place in the array cannot be read as a plan.
    UnreadableEntry(usize),
}

/// The year and the month that a calendar is asked for: those that are
/// named, and for each that is not, that of the local date of `now`.
pub open spec fn period_of(year: Option<i32>, month: Option<u32>, now: TimeView) -> (int, int) {
    (
        match year {
            Some(y) => y as int,
            None => local_year(now.secs, now.offset),
        },
        match month {
            Some(m) => m as int,
            None => local_month(now.secs, now.offset),
        },
    )
}

/// The query that asks for the calendar of a month: the year and the month
/// in decimal.
pub open spec fn period_fields(year: int, month: int) -> Seq<(Seq<char>, Seq<char>)> {
    seq![("year"@, signed_decimal(year)), ("month"@, decimal(month as nat))]
}

/// The entries of the calendar in a response: the array under `Data` and
/// `Calendars`, where there is one.
pub open spec fn response_calendars(response: Value) -> Option<Seq<Value>> {
    json_elements(json_member(json_member(response, "Data"@), "Calendars"@))
}

/// Whether `index` is the first entry that cannot be read as a plan.
pub open spec fn is_first_unreadable(entries: Seq<Value>, index: int) -> bool {
    &&& 0 <= index < entries.len()
    &&& !is_schedule_json(entries[index])
    &&& forall|j: int| 0 <= j < index ==> is_schedule_json(#[trigger] entries[j])
}

/// Whether `schedules` are the plans that `entries` give, one for one and in
/// order.
pub open spec fn read_from(entries: Seq<Value>, schedules: Seq<WorkdaySchedule>) -> bool {
    &&& schedules.len() == entries.len()
    &&& forall|i: int| 0 <= i < entries.len() ==> describes(entries[i], (#[trigger] schedules[i])@)
}

/// Whether `index` is the first plan for the date `today`.
pub open spec fn is_first_of_date(
    schedules: Seq<WorkdaySchedule>,
    today: Seq<char>,
    index: int,
) -> bool {
    &&& 0 <= index < schedules.len()
    &&& schedules[index]@.date == today
    &&& forall|j: int| 0 <= j < index ==> (#[trigger] schedules[j])@.date != today
}

/// What is said where no plan has the date `today`.
pub open spec fn not_found_text(today: Seq<char>) -> Seq<char> {
    "Can not find WorkdaySchedule of "@ + today
}

/// What marks the line of today's plan in a listing.
pub open spec fn today_mark() -> Seq<char> {
    " <-- today"@
}

/// The line of a plan in a listing: the plan, marked where it is today's.
pub open spec fn listing_line(schedule: ScheduleView, today: Seq<char>) -> Seq<char> {
    if schedule.date == today {
        schedule.text() + today_mark()
    } else {
        schedule.text()
    }
}

impl CalendarError {
    /// What the error says.
    pub open spec fn text(self) -> Seq<char> {
        match self {
            CalendarError::MissingCalendars => "No .Data.Calendars found in response"@,
            CalendarError::UnreadableEntry(_) => "A calendar entry cannot be read as a schedule"@,
        }
    }

    /// What the error says.
    pub fn to_string(&self) -> (text: String)
        ensures
            text@ == self.text(),
    {
        match self {
            CalendarError::MissingCalendars => String::from_str(
                "No .Data.Calendars found in response",
            ),
            CalendarError::UnreadableEntry(_) => String::from_str(
                "A calendar entry cannot be read as a schedule",
            ),
        }
    }
}

/// The query that asks the service for the calendar of a month: the month
/// of `now` where none is named.
pub fn calendar_query(year: Option<i32>, month: Option<u32>, now: &LocalTime) -> (query: Vec<
    (String, String),
>)
    ensures
        fields_of(query@) == ({
            let period = period_of(year, month, now@);
            period_fields(period.0, period.1)
        }),
{
    let year = match year {
        Some(y) => y,
        None => now.year(),
    };
    let month = match month {
        Some(m) => m,
        None => now.month(),
    };
    let mut query: Vec<(String, String)> = Vec::new();
    query.push(field("year", signed_decimal_text(year as i64).as_str()));
    query.push(field("month", decimal_text(month as u64).as_str()));
    assert(fields_of(query@) =~= period_fields(year as int, month as int));
    query
}

/// Reads the plans of a month out of the service's response, in the order
/// in which the response lists them.
///
/// Fails where the response has no calendar, and at the first entry that
/// cannot be read.
pub fn get_workday_schedules(response: &Value) -> (result: Result<
    Vec<WorkdaySchedule>,
    CalendarError,
>)
    ensures
        match result {
            Ok(schedules) => {
                &&& response_calendars(*response) matches Some(entries)
                &&& read_from(entries, schedules@)
            },
            Err(CalendarError::MissingCalendars) => response_calendars(*response) is None,
            Err(CalendarError::UnreadableEntry(index)) => {
                &&& response_calendars(*response) matches Some(entries)
                &&& is_first_unreadable(entries, index as int)
            },
        },
{
    let entries = match elements_of(member(member(response, "Data"), "Calendars")) {
        Some(entries) => entries,
        None => { return Err(CalendarError::MissingCalendars); },
    };
    let mut schedules: Vec<WorkdaySchedule> = Vec::new();
    let mut i: usize = 0;
    while i < entries.len()
        invariant
            i <= entries.len(),
            schedules.len() == i,
            response_calendars(*response) == Some(entries@),
            forall|j: int| 0 <= j < i ==> is_schedule_json(#[trigger] entries@[j]),
            forall|j: int| 0 <= j < i ==> describes(entries@[j], (#[trigger] schedules@[j])@),
        decreases entries.len() - i,
    {
        match WorkdaySchedule::try_from_json(&entries[i]) {
            Some(schedule) => {
                schedules.push(schedule);
            },
            None => {
                return Err(CalendarError::UnreadableEntry(i));
            },
        }
        i += 1;
    }
    Ok(schedules)
}

/// Picks the plan of the date `today`: the first one, should there be more.
/// Fails with a message that names the date where there is none.
pub fn get_today_schedule(schedules: Vec<WorkdaySchedule>, today: &str) -> (result: Result<
    WorkdaySchedule,
    String,
>)
    ensures
        match result {
            Ok(found) => exists|i: int|
                is_first_of_date(schedules@, today@, i) && found == schedules@[i],
            Err(message) => {
                &&& forall|i: int|
                    0 <= i < schedules.len() ==> (#[trigger] schedules@[i])@.date != today@
                &&& message@ == not_found_text(today@)
            },
        },
{
    let mut rest = schedules;
    let mut i: usize = 0;
    while i < rest.len()
        invariant
            i <= rest.len(),
            rest@ == schedules@,
            forall|j: int| 0 <= j < i ==> (#[trigger] schedules@[j])@.date != today@,
        decreases rest.len() - i,
    {
        if same_text(rest[i].get_date(), today) {
            let found = rest.remove(i);
            assert(is_first_of_date(schedules@, today@, i as int) && found == schedules@[i as int]);
            return Ok(found);
        }
        i += 1;
    }
    Err(String::from_str("Can not find WorkdaySchedule of ").concat(today))
}

/// The line of a plan in a listing of the month: the plan on one line, with
/// a mark behind it where it is the plan of `today`.
pub fn calendar_line(schedule: &WorkdaySchedule, today: &str) -> (line: String)
    ensures
        line@ == listing_line(schedule@, today@),
{
    let line = schedule.to_string();
    if same_text(schedule.get_date(), today) {
        line.concat(" <-- today")
    } else {
        line
    }
}

} // verus!
