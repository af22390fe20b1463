use apollo::time::{LocalTime, SleepSpan};
use chrono::{DateTime, FixedOffset, Utc};

const LIMIT: i64 = 1_000_000_000_000;

fn at(secs: i64, nanos: u32, offset: i32) -> LocalTime {
    LocalTime::new(secs, nanos, offset).unwrap()
}

#[test]
fn new_keeps_what_it_is_given() {
    let t = at(1_672_707_600, 123_456_789, 28_800);
    assert_eq!(t.timestamp(), 1_672_707_600);
    assert_eq!(t.timestamp_subsec_nanos(), 123_456_789);
    assert_eq!(t.utc_offset(), 28_800);
}

#[test]
fn new_holds_the_three_parts_to_their_ranges() {
    assert!(LocalTime::new(LIMIT, 999_999_999, 86_399).is_some());
    assert!(LocalTime::new(-LIMIT, 0, -86_399).is_some());
    assert!(LocalTime::new(LIMIT + 1, 0, 0).is_none());
    assert!(LocalTime::new(-LIMIT - 1, 0, 0).is_none());
    assert!(LocalTime::new(0, 1_000_000_000, 0).is_none());
    assert!(LocalTime::new(0, u32::MAX, 0).is_none());
    assert!(LocalTime::new(0, 0, 86_400).is_none());
    assert!(LocalTime::new(0, 0, -86_400).is_none());
    assert!(LocalTime::new(i64::MAX, 0, 0).is_none());
    assert!(LocalTime::new(i64::MIN, 0, 0).is_none());
}

#[test]
fn new_holds_a_leap_second_in_the_last_second_of_a_minute() {
    let leap = at(59, 1_000_000_000, 0);
    assert_eq!(leap.timestamp(), 59);
    assert_eq!(leap.timestamp_subsec_nanos(), 1_000_000_000);
    assert!(leap.is_leap_second());
    assert!(!at(59, 999_999_999, 0).is_leap_second());
    assert!(LocalTime::new(59, 1_999_999_999, 0).is_some());
    assert!(LocalTime::new(119, 1_500_000_000, 3_600).is_some());
    assert!(LocalTime::new(1_483_228_799, 1_000_000_000, 0).is_some());
    // before the epoch the minutes are counted downwards
    assert!(LocalTime::new(-1, 1_000_000_000, 0).is_some());
    assert!(LocalTime::new(-61, 1_500_000_000, 0).is_some());
    assert!(LocalTime::new(-60, 1_000_000_000, 0).is_none());
    assert!(LocalTime::new(-59, 1_000_000_000, 0).is_none());
    assert!(LocalTime::new(59, 2_000_000_000, 0).is_none());
    assert!(LocalTime::new(58, 1_000_000_000, 0).is_none());
    assert!(LocalTime::new(60, 1_000_000_000, 0).is_none());
    assert!(LocalTime::new(0, 1_000_000_000, 0).is_none());
    // what is held is what chrono holds
    for secs in [-121i64, -61, -60, -1, 0, 58, 59, 60, 119, 1_483_228_799] {
        for nanos in [0u32, 999_999_999, 1_000_000_000, 1_999_999_999, 2_000_000_000] {
            assert_eq!(
                LocalTime::new(secs, nanos, 0).is_some(),
                DateTime::from_timestamp(secs, nanos).is_some()
            );
        }
    }
}

#[test]
fn a_leap_second_lies_between_its_neighbours() {
    let last = at(59, 999_999_999, 0);
    let leap = at(59, 1_000_000_000, 0);
    let late = at(59, 1_999_999_999, 0);
    let next = at(60, 0, 0);
    assert!(last.is_before(&leap));
    assert!(leap.is_before(&late));
    assert!(late.is_before(&next));
    assert!(leap.is_before(&next));
    assert!(!next.is_before(&leap));
    assert!(!leap.is_before(&last));
    assert!(!leap.is_before(&leap));
    for (a, b) in [(last, leap), (leap, late), (late, next), (next, leap), (leap, leap)] {
        let x = DateTime::from_timestamp(a.timestamp(), a.timestamp_subsec_nanos()).unwrap();
        let y = DateTime::from_timestamp(b.timestamp(), b.timestamp_subsec_nanos()).unwrap();
        assert_eq!(a.is_before(&b), x < y);
    }
}

#[test]
fn is_before_goes_by_the_instant_alone() {
    let a = at(100, 5, 0);
    assert!(a.is_before(&at(101, 0, 0)));
    assert!(a.is_before(&at(100, 6, 0)));
    assert!(!a.is_before(&at(100, 5, 0)));
    assert!(!a.is_before(&at(100, 4, 0)));
    assert!(!a.is_before(&at(99, 999_999_999, 0)));
    assert!(!a.is_before(&at(100, 5, 28_800)));
    assert!(a.is_before(&at(100, 6, -28_800)));
    assert!(at(-1, 999_999_999, 0).is_before(&at(0, 0, 0)));
}

#[test]
fn parse_at_an_offset() {
    let t = LocalTime::parse_from_rfc3339_at("2023-09-23T01:00:00+00:00", 28_800).unwrap();
    assert_eq!(t.timestamp(), 1_695_430_800);
    assert_eq!(t.timestamp_subsec_nanos(), 0);
    assert_eq!(t.utc_offset(), 28_800);
    assert_eq!(t.to_rfc3339(), "2023-09-23T09:00:00+08:00");

    let same = LocalTime::parse_from_rfc3339_at("2023-09-23T09:00:00+08:00", 0).unwrap();
    assert_eq!(same.timestamp(), 1_695_430_800);
    assert_eq!(same.to_rfc3339(), "2023-09-23T01:00:00+00:00");

    let fraction = LocalTime::parse_from_rfc3339_at("2023-09-23T01:00:00.5Z", 0).unwrap();
    assert_eq!(fraction.timestamp_subsec_nanos(), 500_000_000);

    let before_epoch = LocalTime::parse_from_rfc3339_at("1969-12-31T23:59:59Z", 0).unwrap();
    assert_eq!(before_epoch.timestamp(), -1);
}

#[test]
fn parse_refuses_what_is_no_instant() {
    assert!(LocalTime::parse_from_rfc3339_at("", 0).is_none());
    assert!(LocalTime::parse_from_rfc3339_at("2023-09-23", 0).is_none());
    assert!(LocalTime::parse_from_rfc3339_at("2023-09-23T01:00:00", 0).is_none());
    assert!(LocalTime::parse_from_rfc3339_at("2023-13-01T00:00:00Z", 0).is_none());
    assert!(LocalTime::parse_from_rfc3339("not a time").is_none());
    assert!(LocalTime::parse_from_rfc3339_at("2023-09-23T01:00:61Z", 0).is_none());
    assert!(LocalTime::parse_from_rfc3339_at("2023-09-23T24:00:00Z", 0).is_none());
    // an offset of a day or more
    assert!(LocalTime::parse_from_rfc3339_at("2023-09-23T01:00:00Z", 86_400).is_none());
    assert!(LocalTime::parse_from_rfc3339_at("2023-09-23T01:00:00Z", -86_400).is_none());
}

#[test]
fn parse_reads_second_sixty_as_a_leap_second() {
    let leap = LocalTime::parse_from_rfc3339_at("2016-12-31T23:59:60Z", 0).unwrap();
    assert_eq!(leap.timestamp(), 1_483_228_799);
    assert_eq!(leap.timestamp_subsec_nanos(), 1_000_000_000);
    assert_eq!(leap.to_rfc3339(), "2016-12-31T23:59:60+00:00");

    let local = LocalTime::parse_from_rfc3339("2016-12-31T23:59:60Z").unwrap();
    assert_eq!(local.timestamp(), 1_483_228_799);
    assert_eq!(local.timestamp_subsec_nanos(), 1_000_000_000);

    // any minute may carry one, at any offset
    let odd = LocalTime::parse_from_rfc3339_at("2023-09-23T01:00:60.5+00:00", 28_800).unwrap();
    assert_eq!(odd.timestamp(), 1_695_430_859);
    assert_eq!(odd.timestamp_subsec_nanos(), 1_500_000_000);
    assert_eq!(odd.to_rfc3339(), "2023-09-23T09:00:60.500+08:00");
    assert_eq!(odd.date_string(), "2023-09-23");
    let east = LocalTime::parse_from_rfc3339_at("2023-09-23T09:30:60+05:30", 0).unwrap();
    assert_eq!(east.timestamp(), 1_695_441_659);
    assert_eq!(east.timestamp_subsec_nanos(), 1_000_000_000);

    // the ends of what RFC 3339 can write
    let first = LocalTime::parse_from_rfc3339_at("0000-01-01T00:00:00+23:59", 0).unwrap();
    assert_eq!(first.timestamp(), -62_167_219_200 - 86_340);
    let last = LocalTime::parse_from_rfc3339_at("9999-12-31T23:59:60.999999999-23:59", 0).unwrap();
    assert_eq!(last.timestamp(), 253_402_300_799 + 86_340);
    assert_eq!(last.timestamp_subsec_nanos(), 1_999_999_999);
}

#[test]
fn parse_on_the_local_clock_keeps_the_instant() {
    let t = LocalTime::parse_from_rfc3339("2023-09-23T09:00:00.25+08:00").unwrap();
    assert_eq!(t.timestamp(), 1_695_430_800);
    assert_eq!(t.timestamp_subsec_nanos(), 250_000_000);
    assert!(-86_400 < t.utc_offset() && t.utc_offset() < 86_400);
    let back = DateTime::parse_from_rfc3339(&t.to_rfc3339()).unwrap();
    assert_eq!(back.timestamp(), 1_695_430_800);
    assert_eq!(back.offset().local_minus_utc(), t.utc_offset());
}

#[test]
fn to_rfc3339_writes_the_local_reading() {
    assert_eq!(at(0, 0, 0).to_rfc3339(), "1970-01-01T00:00:00+00:00");
    assert_eq!(
        at(1_672_707_600, 0, 28_800).to_rfc3339(),
        "2023-01-03T09:00:00+08:00"
    );
    assert_eq!(
        at(1_672_707_600, 0, -18_000).to_rfc3339(),
        "2023-01-02T20:00:00-05:00"
    );
    assert_eq!(
        at(1_672_707_600, 500_000_000, 19_800).to_rfc3339(),
        "2023-01-03T06:30:00.500+05:30"
    );
}

#[test]
fn date_string_is_the_local_date() {
    assert_eq!(at(1_672_702_200, 0, 0).date_string(), "2023-01-02");
    assert_eq!(at(1_672_702_200, 0, 28_800).date_string(), "2023-01-03");
    assert_eq!(at(0, 0, -1).date_string(), "1969-12-31");
    assert_eq!(at(1_695_430_800, 0, 28_800).date_string(), "2023-09-23");
}

#[test]
fn shifting_by_seconds() {
    let t = at(1_672_707_600, 7, 28_800);
    let earlier = t.checked_sub_seconds(60).unwrap();
    assert_eq!(earlier.timestamp(), 1_672_707_540);
    assert_eq!(earlier.timestamp_subsec_nanos(), 7);
    let later = t.checked_add_seconds(60).unwrap();
    assert_eq!(later.timestamp(), 1_672_707_660);
    assert_eq!(later.timestamp_subsec_nanos(), 7);
    let far = t.checked_add_seconds(u32::MAX).unwrap();
    assert_eq!(far.timestamp(), 1_672_707_600 + 4_294_967_295);
    let same = t.checked_sub_seconds(0).unwrap();
    assert_eq!(same.timestamp(), 1_672_707_600);
    assert!(-86_400 < later.utc_offset() && later.utc_offset() < 86_400);
}

#[test]
fn shifting_out_of_a_leap_second() {
    // 2023-09-23T01:00:60.5Z
    let leap = at(1_695_430_859, 1_500_000_000, 0);
    let moved = |t: Option<LocalTime>| {
        let t = t.unwrap();
        (t.timestamp(), t.timestamp_subsec_nanos())
    };
    assert_eq!(moved(leap.checked_sub_seconds(1)), (1_695_430_859, 500_000_000));
    assert_eq!(moved(leap.checked_sub_seconds(60)), (1_695_430_800, 500_000_000));
    assert_eq!(moved(leap.checked_add_seconds(1)), (1_695_430_860, 500_000_000));
    assert_eq!(moved(leap.checked_add_seconds(60)), (1_695_430_919, 500_000_000));
    assert_eq!(moved(leap.checked_sub_seconds(0)), (1_695_430_859, 1_500_000_000));
    assert_eq!(moved(leap.checked_add_seconds(0)), (1_695_430_859, 1_500_000_000));
    assert!(leap.checked_add_seconds(0).unwrap().is_leap_second());
    assert!(!leap.checked_add_seconds(1).unwrap().is_leap_second());
    // at the lower limit one second back from a leap second is the same second
    let low = at(-1_000_000_000_000 + 39, 1_000_000_000, 0);
    assert_eq!(moved(low.checked_sub_seconds(40)), (-1_000_000_000_000, 0));
    assert!(low.checked_sub_seconds(41).is_none());
}

#[test]
fn shifting_stops_at_the_limit() {
    let top = at(LIMIT - 10, 0, 0);
    assert_eq!(top.checked_add_seconds(10).unwrap().timestamp(), LIMIT);
    assert!(top.checked_add_seconds(11).is_none());
    let bottom = at(-LIMIT + 10, 0, 0);
    assert_eq!(bottom.checked_sub_seconds(10).unwrap().timestamp(), -LIMIT);
    assert!(bottom.checked_sub_seconds(11).is_none());
}

#[test]
fn time_until_a_target_ahead() {
    let now = at(1_000, 0, 0);
    assert_eq!(
        at(1_090, 0, 28_800).time_until(&now),
        Some(SleepSpan { secs: 90, nanos: 0 })
    );
    assert_eq!(
        at(1_000, 1, 0).time_until(&now),
        Some(SleepSpan { secs: 0, nanos: 1 })
    );
    // the nanoseconds borrow from the seconds
    assert_eq!(
        at(10, 100, 0).time_until(&at(9, 900_000_000, 0)),
        Some(SleepSpan { secs: 0, nanos: 100_000_100 })
    );
    assert_eq!(
        at(LIMIT, 999_999_999, 0).time_until(&at(-LIMIT, 0, 0)),
        Some(SleepSpan { secs: 2_000_000_000_000, nanos: 999_999_999 })
    );
}

#[test]
fn time_until_a_target_that_has_come() {
    let now = at(1_000, 500, 0);
    assert_eq!(
        at(1_000, 500, 3_600).time_until(&now),
        Some(SleepSpan { secs: 0, nanos: 0 })
    );
    assert_eq!(at(1_000, 499, 0).time_until(&now), None);
    assert_eq!(at(999, 999_999_999, 0).time_until(&now), None);
    assert_eq!(at(-5, 0, 0).time_until(&now), None);
}

fn chrono_span(target: &LocalTime, now: &LocalTime) -> Option<SleepSpan> {
    let end = DateTime::from_timestamp(target.timestamp(), target.timestamp_subsec_nanos());
    let start = DateTime::from_timestamp(now.timestamp(), now.timestamp_subsec_nanos());
    end.unwrap()
        .signed_duration_since(start.unwrap())
        .to_std()
        .ok()
        .map(|d| SleepSpan { secs: d.as_secs(), nanos: d.subsec_nanos() })
}

#[test]
fn time_until_measures_a_leap_second_as_chrono_does() {
    let leap = at(1_695_430_859, 1_500_000_000, 0);
    let after = at(1_695_430_860, 0, 0);
    let before = at(1_695_430_859, 0, 0);
    assert_eq!(
        leap.time_until(&before),
        Some(SleepSpan { secs: 1, nanos: 500_000_000 })
    );
    assert_eq!(
        after.time_until(&leap),
        Some(SleepSpan { secs: 0, nanos: 500_000_000 })
    );
    assert_eq!(leap.time_until(&after), None);
    assert_eq!(leap.time_until(&leap), Some(SleepSpan { secs: 0, nanos: 0 }));
    let midnight_leap = at(86_399, 1_500_000_000, 0);
    let times = [
        leap,
        after,
        before,
        midnight_leap,
        at(86_400, 0, 0),
        at(86_399, 0, 0),
        at(86_410, 250, 0),
        at(1_695_430_800, 0, 0),
    ];
    for target in &times {
        for now in &times {
            assert_eq!(target.time_until(now), chrono_span(target, now));
        }
    }
}

fn local_day(t: &LocalTime) -> i64 {
    (t.timestamp() + i64::from(t.utc_offset())).div_euclid(86_400)
}

fn second_of_day(t: &LocalTime) -> i64 {
    (t.timestamp() + i64::from(t.utc_offset())).rem_euclid(86_400)
}

#[test]
fn next_day_at_seven_whatever_the_hour() {
    // one reading for each hour of a day: some before seven, some after
    for hour in 0..24 {
        let text = format!("2023-09-23T{:02}:30:15.5Z", hour);
        let now = LocalTime::parse_from_rfc3339(&text).unwrap();
        let start = LocalTime::next_day_at_hour(&now, 7).unwrap();
        assert_eq!(local_day(&start), local_day(&now) + 1);
        assert_eq!(second_of_day(&start), 7 * 3_600);
        assert_eq!(start.timestamp_subsec_nanos(), 0);
        assert!(now.is_before(&start));
        let wait = start.timestamp() - now.timestamp();
        assert!(wait > 6 * 3_600 && wait <= 32 * 3_600);
    }
}

#[test]
fn next_day_from_within_a_leap_second() {
    let leap = at(1_483_228_799, 1_500_000_000, 0);
    assert_eq!(leap.next_day_reading(7), Some(1_483_228_800 + 7 * 3_600));
    let start = LocalTime::next_day_at_hour(&leap, 7).unwrap();
    assert!(leap.is_before(&start));
    assert_eq!(second_of_day(&start), 7 * 3_600);
}

#[test]
fn next_day_goes_by_the_local_date_of_now() {
    // 23:30 UTC is already the next day at +08:00
    let now = at(1_672_702_200, 0, 28_800);
    let start = LocalTime::next_day_at_hour(&now, 7).unwrap();
    assert_eq!(
        (start.timestamp() + i64::from(start.utc_offset())).div_euclid(86_400),
        (1_672_702_200 + 28_800) / 86_400 + 1
    );
    let utc = at(1_672_702_200, 0, 0);
    let start = LocalTime::next_day_at_hour(&utc, 0).unwrap();
    assert_eq!(local_day(&start), 1_672_702_200 / 86_400 + 1);
    assert_eq!(second_of_day(&start), 0);
}

#[test]
fn next_day_needs_an_hour_of_the_day() {
    let now = at(1_672_702_200, 0, 0);
    assert!(LocalTime::next_day_at_hour(&now, 23).is_some());
    assert!(LocalTime::next_day_at_hour(&now, 24).is_none());
    assert!(LocalTime::next_day_at_hour(&now, u32::MAX).is_none());
}

#[test]
fn now_reads_the_clock() {
    let before = Utc::now().timestamp();
    let now = LocalTime::now().unwrap();
    let after = Utc::now().timestamp();
    assert!(before <= now.timestamp() && now.timestamp() <= after);
    assert!(now.timestamp_subsec_nanos() < 1_000_000_000);
    let shown = FixedOffset::east_opt(now.utc_offset()).unwrap();
    assert_eq!(
        now.date_string(),
        DateTime::from_timestamp(now.timestamp(), 0)
            .unwrap()
            .with_timezone(&shown)
            .format("%Y-%m-%d")
            .to_string()
    );
}

#[test]
fn next_day_beyond_the_limit_is_refused() {
    let last = at(LIMIT, 0, 0);
    assert!(LocalTime::next_day_at_hour(&last, 7).is_none());
    let early = at(-LIMIT, 0, 0);
    let start = LocalTime::next_day_at_hour(&early, 7).unwrap();
    assert!(early.is_before(&start));
}

#[test]
fn next_day_reading_is_the_hour_on_the_next_local_day() {
    // 2023-01-02T23:30:00Z: the 2nd in UTC, the 3rd already at +08:00
    let utc = at(1_672_702_200, 0, 0);
    assert_eq!(utc.next_day_reading(7), Some(1_672_704_000 + 7 * 3_600));
    assert_eq!(utc.next_day_reading(0), Some(1_672_704_000));
    assert_eq!(utc.next_day_reading(23), Some(1_672_704_000 + 23 * 3_600));
    let taipei = at(1_672_702_200, 0, 28_800);
    assert_eq!(taipei.next_day_reading(7), Some(1_672_790_400 + 7 * 3_600));
    // before the epoch the day number is rounded down
    assert_eq!(at(-1, 0, 0).next_day_reading(7), Some(25_200));
    assert_eq!(at(0, 0, -1).next_day_reading(7), Some(25_200));
    assert_eq!(at(0, 0, 0).next_day_reading(7), Some(86_400 + 25_200));
    assert_eq!(utc.next_day_reading(24), None);
    assert_eq!(utc.next_day_reading(u32::MAX), None);
}
