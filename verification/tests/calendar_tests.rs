use apollo::calendar::{
    calendar_line, calendar_query, get_today_schedule, get_workday_schedules, CalendarError,
};
use apollo::login::{login_form, request_verification_token, ticket_code};
use apollo::response::to_resp_json;
use apollo::time::LocalTime;
use apollo::workday_schedule::WorkdaySchedule;
use serde_json::Value;

fn text(s: &str) -> Value {
    Value::String(s.to_string())
}

fn object(members: Vec<(&str, Value)>) -> Value {
    let mut map = serde_json::Map::new();
    for (key, value) in members {
        map.insert(key.to_string(), value);
    }
    Value::Object(map)
}

fn entry(date: &str, on: Value, off: Value, memo: Value) -> Value {
    object(vec![
        ("Date", text(date)),
        ("ShiftSchedule", object(vec![("WorkOnTime", on), ("WorkOffTime", off)])),
        ("CalendarEvent", object(vec![("EventMemo", memo)])),
    ])
}

fn response(entries: Vec<Value>) -> Value {
    object(vec![("Data", object(vec![("Calendars", Value::Array(entries))]))])
}

fn day(date: &str) -> WorkdaySchedule {
    WorkdaySchedule::new(date.to_string(), None, None, None)
}

#[test]
fn schedules_come_in_the_order_of_the_response() {
    let resp = response(vec![
        entry(
            "2023-09-22T00:00:00+00:00",
            text("2023-09-22T01:00:00+00:00"),
            text("2023-09-22T10:00:00+00:00"),
            Value::Null,
        ),
        entry("2023-09-23T00:00:00+00:00", Value::Null, Value::Null, text("休息")),
    ]);
    let schedules = get_workday_schedules(&resp).unwrap();
    assert_eq!(schedules.len(), 2);
    assert_eq!(schedules[0].get_date(), "2023-09-22");
    assert!(schedules[0].is_work_day());
    assert_eq!(schedules[0].work_on_time().unwrap().timestamp(), 1_695_344_400);
    assert_eq!(schedules[0].work_off_time().unwrap().timestamp(), 1_695_376_800);
    assert_eq!(schedules[0].memo(), None);
    assert_eq!(schedules[1].get_date(), "2023-09-23");
    assert!(!schedules[1].is_work_day());
    assert_eq!(schedules[1].memo(), Some("休息"));
    assert_eq!(get_workday_schedules(&response(vec![])).unwrap().len(), 0);
}

#[test]
fn a_response_without_calendars_is_refused() {
    for resp in [
        Value::Null,
        object(vec![]),
        object(vec![("Data", Value::Null)]),
        object(vec![("Data", object(vec![("Calendars", text("none"))]))]),
        object(vec![("Calendars", Value::Array(vec![]))]),
    ] {
        let error = get_workday_schedules(&resp).unwrap_err();
        assert_eq!(error, CalendarError::MissingCalendars);
        assert_eq!(error.to_string(), "No .Data.Calendars found in response");
    }
}

#[test]
fn the_first_unreadable_entry_is_named() {
    let good = || entry("2023-09-23T00:00:00+00:00", Value::Null, Value::Null, Value::Null);
    let resp = response(vec![
        good(),
        entry("2023-09-24", Value::Null, Value::Null, Value::Null),
        entry("2023-09-25T00:00:00Z", text("soon"), Value::Null, Value::Null),
    ]);
    assert_eq!(
        get_workday_schedules(&resp).unwrap_err(),
        CalendarError::UnreadableEntry(1)
    );
    let resp = response(vec![good(), good(), Value::from(3)]);
    let error = get_workday_schedules(&resp).unwrap_err();
    assert_eq!(error, CalendarError::UnreadableEntry(2));
    assert_eq!(error.to_string(), "A calendar entry cannot be read as a schedule");
}

#[test]
fn today_is_found_by_its_date() {
    let schedules = vec![day("2023-09-22"), day("2023-09-23"), day("2023-09-24")];
    let found = get_today_schedule(schedules, "2023-09-23").unwrap();
    assert_eq!(found.get_date(), "2023-09-23");
}

#[test]
fn today_is_the_first_of_its_date() {
    let first = WorkdaySchedule::new("2023-09-23".to_string(), None, None, Some("a".to_string()));
    let second = WorkdaySchedule::new("2023-09-23".to_string(), None, None, Some("b".to_string()));
    let found = get_today_schedule(vec![day("2023-09-22"), first, second], "2023-09-23").unwrap();
    assert_eq!(found.memo(), Some("a"));
}

#[test]
fn a_day_that_is_not_listed_is_not_found() {
    let schedules = vec![day("2023-09-22"), day("2023-09-24")];
    assert_eq!(
        get_today_schedule(schedules, "2023-09-23").unwrap_err(),
        "Can not find WorkdaySchedule of 2023-09-23"
    );
    assert_eq!(
        get_today_schedule(vec![], "2023-09-23").unwrap_err(),
        "Can not find WorkdaySchedule of 2023-09-23"
    );
}

#[test]
fn the_line_of_today_is_marked() {
    let on = LocalTime::new(1_672_707_600, 0, 28_800).unwrap();
    let off = LocalTime::new(1_672_740_000, 0, 28_800).unwrap();
    let schedule = WorkdaySchedule::new("2023-01-03".to_string(), Some(on), Some(off), None);
    assert_eq!(
        calendar_line(&schedule, "2023-01-03"),
        "2023-01-03 工作日 2023-01-03T09:00:00+08:00 2023-01-03T18:00:00+08:00 <-- today"
    );
    assert_eq!(
        calendar_line(&schedule, "2023-01-04"),
        "2023-01-03 工作日 2023-01-03T09:00:00+08:00 2023-01-03T18:00:00+08:00"
    );
}

#[test]
fn a_good_response_hands_its_body_on() {
    let body = object(vec![("Data", Value::from(1))]);
    assert_eq!(to_resp_json(200, body.clone()), Ok(body.clone()));
    assert_eq!(to_resp_json(204, body.clone()), Ok(body.clone()));
    assert_eq!(to_resp_json(299, body.clone()), Ok(body));
    assert_eq!(to_resp_json(200, Value::Null), Ok(Value::Null));
}

#[test]
fn a_failed_response_is_told_with_status_and_body() {
    let body = object(vec![("Data", Value::from(1))]);
    assert_eq!(
        to_resp_json(404, body.clone()),
        Err("[404][Failed] {\"Data\":1}".to_string())
    );
    assert_eq!(
        to_resp_json(199, body.clone()),
        Err("[199][Failed] {\"Data\":1}".to_string())
    );
    assert_eq!(
        to_resp_json(300, body.clone()),
        Err("[300][Failed] {\"Data\":1}".to_string())
    );
    assert_eq!(to_resp_json(500, Value::Null), Err("[500][Failed] null".to_string()));
    let refused = object(vec![("error", text("invalid_grant"))]);
    assert_eq!(
        to_resp_json(200, refused),
        Err("[200][Failed] {\"error\":\"invalid_grant\"}".to_string())
    );
    let null_error = object(vec![("error", Value::Null)]);
    assert_eq!(
        to_resp_json(200, null_error),
        Err("[200][Failed] {\"error\":null}".to_string())
    );
}

#[test]
fn the_token_is_read_from_the_login_page() {
    let html = r#"<html><body><form action="/Token">
        <input name="other" type="hidden" value="no" />
        <input name="__RequestVerificationToken" type="hidden" value="tok-123_ABC" />
        <input name="__RequestVerificationToken" type="hidden" value="second" />
      </form></body></html>"#;
    assert_eq!(request_verification_token(html), Ok("tok-123_ABC".to_string()));
    assert_eq!(
        request_verification_token("<html><body><p>no form</p></body></html>"),
        Ok("".to_string())
    );
    assert_eq!(request_verification_token(""), Ok("".to_string()));
}

#[test]
fn the_login_form_has_its_eight_fields() {
    let form = login_form("tok", "ACME", "E001", "secret");
    let expected: Vec<(String, String)> = [
        ("__RequestVerificationToken", "tok"),
        ("companyCode", "ACME"),
        ("employeeNo", "E001"),
        ("grant_type", "password"),
        ("locale", "zh-tw"),
        ("password", "secret"),
        ("red", "https,//apollo.mayohr.com/tube"),
        ("userName", "ACME-E001"),
    ]
    .iter()
    .map(|(name, value)| (name.to_string(), value.to_string()))
    .collect();
    assert_eq!(form, expected);
}

#[test]
fn the_ticket_code_is_the_text_under_code() {
    let answer = object(vec![("code", text("abc123")), ("other", Value::from(1))]);
    assert_eq!(ticket_code(&answer), Some("abc123".to_string()));
    assert_eq!(ticket_code(&object(vec![("code", Value::from(5))])), None);
    assert_eq!(ticket_code(&object(vec![])), None);
    assert_eq!(ticket_code(&Value::Null), None);
}

fn pairs(fields: &[(&str, &str)]) -> Vec<(String, String)> {
    fields
        .iter()
        .map(|(name, value)| (name.to_string(), value.to_string()))
        .collect()
}

#[test]
fn the_calendar_is_asked_for_the_month_of_now() {
    // 2023-09-30T20:00:00Z is October already at +08:00
    let utc = LocalTime::new(1_696_104_000, 0, 0).unwrap();
    let taipei = LocalTime::new(1_696_104_000, 0, 28_800).unwrap();
    assert_eq!(
        calendar_query(None, None, &utc),
        pairs(&[("year", "2023"), ("month", "9")])
    );
    assert_eq!(
        calendar_query(None, None, &taipei),
        pairs(&[("year", "2023"), ("month", "10")])
    );
    assert_eq!(
        calendar_query(Some(2024), None, &utc),
        pairs(&[("year", "2024"), ("month", "9")])
    );
    assert_eq!(
        calendar_query(None, Some(2), &utc),
        pairs(&[("year", "2023"), ("month", "2")])
    );
    assert_eq!(
        calendar_query(Some(-5), Some(13), &utc),
        pairs(&[("year", "-5"), ("month", "13")])
    );
    assert_eq!(utc.year(), 2023);
    assert_eq!(utc.month(), 9);
    assert_eq!(taipei.month(), 10);
    // the last second of a year, and the first of the next at +00:00:01
    let eve = LocalTime::new(1_704_067_199, 0, 0).unwrap();
    assert_eq!((eve.year(), eve.month()), (2023, 12));
    let new_year = LocalTime::new(1_704_067_199, 0, 1).unwrap();
    assert_eq!((new_year.year(), new_year.month()), (2024, 1));
}

#[test]
fn a_calendar_with_second_sixty_is_read() {
    let resp = response(vec![entry(
        "2023-09-23T00:00:00+00:00",
        text("2023-09-23T01:00:60+00:00"),
        text("2023-09-23T10:00:00+00:00"),
        Value::Null,
    )]);
    let schedules = get_workday_schedules(&resp).unwrap();
    assert_eq!(schedules.len(), 1);
    let on = schedules[0].work_on_time().unwrap();
    assert_eq!(on.timestamp(), 1_695_430_859);
    assert_eq!(on.timestamp_subsec_nanos(), 1_000_000_000);
    assert!(on.is_leap_second());
}
