use cica::cron::clock::{Clock, FakeClock, SystemClock};
use std::time::Duration;

#[test]
fn test_fake_clock() {
    let clock = FakeClock::new(1000);
    assert_eq!(clock.now_millis(), 1000);

    clock.advance_ms(500);
    assert_eq!(clock.now_millis(), 1500);

    clock.set(5000);
    assert_eq!(clock.now_millis(), 5000);
}

#[test]
fn test_fake_clock_clone() {
    let clock1 = FakeClock::new(1000);
    let clock2 = clock1.clone();

    clock1.advance_ms(500);

    // Both clones share one counter.
    assert_eq!(clock1.now_millis(), 1500);
    assert_eq!(clock2.now_millis(), 1500);
}

#[test]
fn fake_clock_advances_by_duration() {
    let clock = FakeClock::new(0);
    clock.advance(Duration::from_secs(2));
    assert_eq!(clock.now_millis(), 2000);
    clock.advance(Duration::from_millis(250));
    assert_eq!(clock.now_millis(), 2250);
}

#[test]
fn system_clock_reads_after_the_epoch() {
    let clock = SystemClock;
    let first = clock.now_millis();
    assert!(first > 1_600_000_000_000);
    assert!(clock.now_millis() >= first);
}
