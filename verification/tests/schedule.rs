use cica::cron::schedule::{
    format_duration, parse_datetime, parse_duration, render_local_minute, CronSchedule,
};

#[test]
fn test_parse_duration() {
    assert_eq!(parse_duration("10s").unwrap(), 10_000);
    assert_eq!(parse_duration("5m").unwrap(), 300_000);
    assert_eq!(parse_duration("1h").unwrap(), 3_600_000);
    assert_eq!(parse_duration("2d").unwrap(), 172_800_000);
    assert_eq!(parse_duration("30min").unwrap(), 1_800_000);
    assert_eq!(parse_duration("24hours").unwrap(), 86_400_000);
}

#[test]
fn test_parse_duration_errors() {
    assert!(parse_duration("").is_err());
    assert!(parse_duration("abc").is_err());
    assert!(parse_duration("10x").is_err());
}

#[test]
fn test_schedule_parse_every() {
    assert!(matches!(
        CronSchedule::parse("every 10s"),
        Ok(CronSchedule::Every(10_000))
    ));
    assert!(matches!(
        CronSchedule::parse("every 1h"),
        Ok(CronSchedule::Every(3_600_000))
    ));
}

#[test]
fn test_schedule_parse_cron() {
    let result = CronSchedule::parse("0 9 * * *");
    assert!(matches!(result, Ok(CronSchedule::Cron(_))));
}

#[test]
fn test_schedule_next_run_every() {
    let schedule = CronSchedule::Every(60_000);
    assert_eq!(schedule.next_run_after(1000), Some(61_000));
}

#[test]
fn test_schedule_next_run_at() {
    let schedule = CronSchedule::At(5000);
    assert_eq!(schedule.next_run_after(1000), Some(5000));
    assert_eq!(schedule.next_run_after(5000), None);
    assert_eq!(schedule.next_run_after(6000), None);
}

#[test]
fn every_advances_by_exactly_the_interval_each_time() {
    let schedule = CronSchedule::Every(10_000);
    let first = schedule.next_run_after(1_000).unwrap();
    assert_eq!(first, 11_000);
    let second = schedule.next_run_after(first).unwrap();
    assert_eq!(second, 21_000);
}

#[test]
fn every_has_no_next_run_beyond_the_number_range() {
    let schedule = CronSchedule::Every(2);
    assert_eq!(schedule.next_run_after(u64::MAX - 2), Some(u64::MAX));
    assert_eq!(schedule.next_run_after(u64::MAX - 1), None);
}

#[test]
fn duration_error_messages() {
    assert_eq!(parse_duration("  ").unwrap_err(), "Empty duration string");
    assert_eq!(parse_duration("abc").unwrap_err(), "Invalid duration: abc");
    assert_eq!(parse_duration("10x").unwrap_err(), "Invalid unit: x. Use s/m/h/d");
    assert_eq!(
        parse_duration("99999999999999999999s").unwrap_err(),
        "Invalid number: 99999999999999999999"
    );
    assert_eq!(
        parse_duration("18446744073709551615d").unwrap_err(),
        "Invalid duration: 18446744073709551615d"
    );
}

#[test]
fn duration_units_long_and_short() {
    assert_eq!(parse_duration("1sec").unwrap(), 1_000);
    assert_eq!(parse_duration("2 secs").unwrap(), 2_000);
    assert_eq!(parse_duration("3seconds").unwrap(), 3_000);
    assert_eq!(parse_duration("1minute").unwrap(), 60_000);
    assert_eq!(parse_duration("2mins").unwrap(), 120_000);
    assert_eq!(parse_duration("1hr").unwrap(), 3_600_000);
    assert_eq!(parse_duration("2hrs").unwrap(), 7_200_000);
    assert_eq!(parse_duration("1day").unwrap(), 86_400_000);
    assert_eq!(parse_duration("3days").unwrap(), 259_200_000);
    assert_eq!(parse_duration(" 007s ").unwrap(), 7_000);
    assert_eq!(parse_duration("0s").unwrap(), 0);
}

#[test]
fn durations_are_written_in_the_largest_unit() {
    assert_eq!(format_duration(3_600_000), "every 1h");
    assert_eq!(format_duration(86_400_000), "every 1d");
    assert_eq!(format_duration(172_800_000), "every 2d");
    assert_eq!(format_duration(90_000), "every 90s");
    assert_eq!(format_duration(120_000), "every 2m");
    assert_eq!(format_duration(1_500), "every 1500ms");
    assert_eq!(format_duration(0), "every 0ms");
    assert_eq!(format_duration(u64::MAX), "every 18446744073709551615ms");
}

#[test]
fn interval_description_round_trips() {
    for ms in [1_000u64, 10_000, 60_000, 3_600_000, 5_400_000, 86_400_000, 604_800_000] {
        let schedule = CronSchedule::Every(ms);
        let text = schedule.description();
        assert_eq!(CronSchedule::parse(&text), Ok(CronSchedule::Every(ms)));
    }
    assert_eq!(CronSchedule::Every(3_600_000).description(), "every 1h");
}

#[test]
fn cron_description_is_the_expression() {
    let schedule = CronSchedule::parse(" 0 9 * * * ").unwrap();
    assert_eq!(schedule, CronSchedule::Cron("0 9 * * *".to_string()));
    assert_eq!(schedule.description(), "0 9 * * *");
}

#[test]
fn invalid_cron_expression_is_rejected_with_the_reason() {
    let err = CronSchedule::parse("not a schedule").unwrap_err();
    assert!(err.starts_with("Invalid cron expression: "), "{}", err);
    assert!(err.len() > "Invalid cron expression: ".len());
    let err = CronSchedule::parse("").unwrap_err();
    assert!(err.starts_with("Invalid cron expression: "), "{}", err);
}

#[test]
fn cron_schedule_finds_a_later_minute() {
    let schedule = CronSchedule::Cron("* * * * *".to_string());
    let after = 1_700_000_000_000u64;
    let next = schedule.next_run_after(after).unwrap();
    assert!(next > after);
    assert!(next - after <= 60_000);
    assert_eq!(next % 1000, 0);
}

#[test]
fn cron_schedule_with_a_bad_expression_has_no_next_run() {
    let schedule = CronSchedule::Cron("nonsense".to_string());
    assert_eq!(schedule.next_run_after(1_700_000_000_000), None);
}

#[test]
fn cron_schedule_beyond_the_calendar_has_no_next_run() {
    let schedule = CronSchedule::Cron("* * * * *".to_string());
    assert_eq!(schedule.next_run_after(253_402_300_800_000), None);
    assert_eq!(schedule.next_run_after(u64::MAX), None);
}

#[test]
fn at_schedule_parses_all_four_forms() {
    let a = parse_datetime("2030-06-15 12:30").unwrap();
    let b = parse_datetime("2030-06-15 12:30:00").unwrap();
    let c = parse_datetime("2030-06-15T12:30").unwrap();
    let d = parse_datetime(" 2030-06-15T12:30:00 ").unwrap();
    assert_eq!(a, b);
    assert_eq!(a, c);
    assert_eq!(a, d);
    assert_eq!(parse_datetime("2030-06-15 12:30:45").unwrap(), a + 45_000);
    assert!(matches!(
        CronSchedule::parse("at 2030-06-15 12:30"),
        Ok(CronSchedule::At(ts)) if ts == a
    ));
}

#[test]
fn at_schedule_rejects_what_is_no_date() {
    assert_eq!(
        CronSchedule::parse("at tomorrow").unwrap_err(),
        "Invalid datetime: tomorrow. Use format: YYYY-MM-DD HH:MM"
    );
    assert_eq!(
        parse_datetime("2030-13-01 00:00").unwrap_err(),
        "Invalid datetime: 2030-13-01 00:00. Use format: YYYY-MM-DD HH:MM"
    );
    assert!(parse_datetime("1960-01-01 00:00").is_err());
}

#[test]
fn at_description_round_trips_on_whole_minutes() {
    let ts = parse_datetime("2030-06-15 12:30").unwrap();
    let schedule = CronSchedule::At(ts);
    let text = schedule.description();
    assert_eq!(text, "at 2030-06-15 12:30");
    assert_eq!(CronSchedule::parse(&text), Ok(CronSchedule::At(ts)));
}

#[test]
fn at_description_beyond_the_calendar_is_the_number() {
    assert_eq!(
        CronSchedule::At(u64::MAX).description(),
        "at 18446744073709551615"
    );
}

#[test]
fn every_instant_of_the_calendar_is_rendered() {
    for ts in [0u64, 1, 1_700_000_000_000, 253_402_300_799_999] {
        let text = render_local_minute(ts).unwrap();
        assert!(text.len() >= 16, "{} {:?}", ts, text);
        assert!(text.contains(' ') && text.contains(':') && text.contains('-'));
    }
    assert_eq!(render_local_minute(253_402_300_800_000), None);
    assert_eq!(render_local_minute(u64::MAX), None);
}
