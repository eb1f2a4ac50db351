use std::time::{Duration, Instant, SystemTime, UNIX_EPOCH};

use oxide_ui::time::{append_uptime, epoch_to_string, moment_label, relative_age_text, Clock};

const NOW: u64 = 1_700_000_000;

fn unix_now() -> u64 {
    SystemTime::now().duration_since(UNIX_EPOCH).unwrap().as_secs()
}

#[test]
fn fifty_nine_seconds_ago_is_shown_in_seconds() {
    assert_eq!(relative_age_text(NOW - 59, Some(NOW)), "59s");
}

#[test]
fn sixty_one_seconds_ago_is_shown_in_minutes() {
    assert_eq!(relative_age_text(NOW - 61, Some(NOW)), "1m");
}

#[test]
fn an_hour_and_a_second_ago_is_shown_in_hours() {
    assert_eq!(relative_age_text(NOW - 3601, Some(NOW)), "1h");
}

#[test]
fn ten_seconds_ahead_is_in_the_future() {
    assert_eq!(relative_age_text(NOW + 10, Some(NOW)), "Time is in the future");
}

#[test]
fn the_age_changes_its_unit_at_the_stated_bounds() {
    assert_eq!(relative_age_text(NOW, Some(NOW)), "0s");
    assert_eq!(relative_age_text(NOW - 60, Some(NOW)), "60s");
    assert_eq!(relative_age_text(NOW - 119, Some(NOW)), "1m");
    assert_eq!(relative_age_text(NOW - 3599, Some(NOW)), "59m");
    assert_eq!(relative_age_text(NOW - 3600, Some(NOW)), "1h");
    assert_eq!(relative_age_text(NOW - 7199, Some(NOW)), "1h");
    assert_eq!(relative_age_text(NOW - 7200, Some(NOW)), "2h");
    assert_eq!(relative_age_text(0, Some(NOW)), "472222h");
}

#[test]
fn a_timestamp_beyond_the_clock_is_invalid() {
    assert_eq!(relative_age_text(u64::MAX, Some(NOW)), "Invalid timestamp");
    assert_eq!(relative_age_text(i64::MAX as u64 + 1, Some(NOW)), "Invalid timestamp");
    assert_eq!(relative_age_text(i64::MAX as u64, Some(NOW)), "Time is in the future");
}

#[test]
fn every_timestamp_is_ahead_of_a_clock_before_the_epoch() {
    assert_eq!(relative_age_text(0, None), "Time is in the future");
    assert_eq!(relative_age_text(u64::MAX, None), "Invalid timestamp");
}

#[test]
fn epoch_to_string_reads_the_system_clock() {
    let now = unix_now();
    assert_eq!(epoch_to_string(now - 9000), "2h");
    assert_eq!(epoch_to_string(now - 150), "2m");
    assert_eq!(epoch_to_string(now + 1000), "Time is in the future");
    assert_eq!(epoch_to_string(u64::MAX), "Invalid timestamp");
    let recent = epoch_to_string(now - 30);
    assert!(recent == "30s" || recent == "31s", "{}", recent);
}

#[test]
fn the_time_since_start_is_shown_in_at_least_two_digits_each() {
    let mut text = String::new();
    append_uptime(&mut text, 0);
    assert_eq!(text, "00:00:00");
    let mut text = String::from("up ");
    append_uptime(&mut text, 3725);
    assert_eq!(text, "up 01:02:05");
    let mut text = String::new();
    append_uptime(&mut text, 360_000 + 59 * 60 + 59);
    assert_eq!(text, "100:59:59");
}

#[test]
fn a_moment_is_printed_in_utc() {
    assert_eq!(moment_label(0), "1970-01-01 00:00:00 UTC");
    assert_eq!(moment_label(1_431_648_000), "2015-05-15 00:00:00 UTC");
    assert_eq!(moment_label(1_700_000_000), "2023-11-14 22:13:20 UTC");
    assert_eq!(moment_label(-1), "1969-12-31 23:59:59 UTC");
}

#[test]
fn a_moment_that_chrono_cannot_hold_is_invalid() {
    assert_eq!(moment_label(i64::MAX), "Invalid timestamp");
    assert_eq!(moment_label(i64::MIN), "Invalid timestamp");
}

#[test]
fn the_clock_reads_the_time_since_start_and_the_system_clock() {
    let start = Instant::now() - Duration::from_secs(125);
    let before = unix_now();
    let clock = Clock::read(&start);
    let after = unix_now();
    assert!(clock.uptime == 125 || clock.uptime == 126, "{}", clock.uptime);
    let now = clock.now.unwrap();
    assert!(before <= now && now <= after);
}
