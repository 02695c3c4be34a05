use cica::cron::schedule::CronSchedule;
use cica::cron::{format_timestamp, parse_add_command, shown_timestamp, truncate_for_name};

#[test]
fn test_parse_add_every() {
    let (schedule, prompt) = parse_add_command("every 1h Check my emails").unwrap();
    assert!(matches!(schedule, CronSchedule::Every(3_600_000)));
    assert_eq!(prompt, "Check my emails");
}

#[test]
fn test_parse_add_every_short() {
    let (schedule, prompt) = parse_add_command("every 10s Say hello").unwrap();
    assert!(matches!(schedule, CronSchedule::Every(10_000)));
    assert_eq!(prompt, "Say hello");
}

#[test]
fn test_parse_add_cron() {
    let (schedule, prompt) = parse_add_command("0 9 * * * Good morning!").unwrap();
    assert!(matches!(schedule, CronSchedule::Cron(_)));
    assert_eq!(prompt, "Good morning!");
}

#[test]
fn test_truncate_for_name() {
    assert_eq!(truncate_for_name("short", 10), "short");
    assert_eq!(truncate_for_name("this is a long name", 10), "this is...");
}

#[test]
fn parse_add_cron_keeps_the_expression() {
    let (schedule, prompt) = parse_add_command("0 9 * * * Good morning!").unwrap();
    assert_eq!(schedule, CronSchedule::Cron("0 9 * * *".to_string()));
    assert_eq!(prompt, "Good morning!");
}

#[test]
fn parse_add_at_takes_date_and_time() {
    let (schedule, prompt) = parse_add_command("at 2030-06-15 12:30 Water the plants").unwrap();
    assert!(matches!(schedule, CronSchedule::At(_)));
    assert_eq!(prompt, "Water the plants");
}

#[test]
fn parse_add_usage_errors() {
    assert_eq!(
        parse_add_command("   ").unwrap_err(),
        "Usage: /cron add <schedule> <prompt>"
    );
    assert_eq!(
        parse_add_command("every 1h").unwrap_err(),
        "Usage: /cron add every <interval> <prompt>"
    );
    assert_eq!(
        parse_add_command("at 2030-06-15 12:30").unwrap_err(),
        "Usage: /cron add at <date> <time> <prompt>"
    );
    assert_eq!(
        parse_add_command("hello there").unwrap_err(),
        "Could not parse schedule. Use:\n- every <interval> (e.g., every 1h, every 10s)\n- at <datetime> (e.g., at 2024-01-28 14:00)\n- <cron expression> (e.g., 0 9 * * *)"
    );
    assert_eq!(
        parse_add_command("a b c d e f g").unwrap_err(),
        "Could not parse schedule. Use:\n- every <interval> (e.g., every 1h, every 10s)\n- at <datetime> (e.g., at 2024-01-28 14:00)\n- <cron expression> (e.g., 0 9 * * *)"
    );
}

#[test]
fn parse_add_reports_the_schedule_error() {
    assert_eq!(
        parse_add_command("every 10x Say hello").unwrap_err(),
        "Invalid unit: x. Use s/m/h/d"
    );
    assert_eq!(
        parse_add_command("at someday soon hello").unwrap_err(),
        "Invalid datetime: someday soon. Use format: YYYY-MM-DD HH:MM"
    );
}

#[test]
fn parse_add_keeps_the_prompt_as_it_is() {
    let (_, prompt) = parse_add_command("every 5m  two  spaces ").unwrap();
    assert_eq!(prompt, " two  spaces");
}

#[test]
fn truncate_trims_and_cuts() {
    assert_eq!(truncate_for_name("  padded  ", 10), "padded");
    assert_eq!(truncate_for_name("exactly ten", 11), "exactly ten");
    assert_eq!(truncate_for_name("exactly ten!", 11), "exactly ...");
    assert_eq!(truncate_for_name("abcdef", 3), "...");
    assert_eq!(truncate_for_name("abcdef", 2), "...");
    assert_eq!(truncate_for_name("", 0), "");
}

#[test]
fn timestamps_are_shown_to_the_minute() {
    let text = format_timestamp(1_700_000_000_000);
    assert_eq!(text.len(), 16);
    assert_eq!(&text[4..5], "-");
    assert_eq!(&text[10..11], " ");
    assert_eq!(format_timestamp(u64::MAX), "unknown");
    assert_eq!(shown_timestamp(None), "unknown");
    assert_eq!(shown_timestamp(Some("2030-01-01 00:00".to_string())), "2030-01-01 00:00");
}
