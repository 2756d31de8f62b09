use enviame::availability::{busy_status_from_events, CalendarEvent, EventTime, QuietHours};
use enviame::civil::days_from_civil;

const DAY: i64 = 19850;

fn quiet() -> QuietHours {
    QuietHours { start_hour: 23, end_hour: 8, tz_offset: 0 }
}

#[test]
fn no_events_inside_morning_quiet_hours_is_busy_until_quiet_end() {
    let now = DAY * 86400 + 3600;
    let (busy, transition) = busy_status_from_events(&Vec::new(), now, &quiet());
    assert!(busy);
    assert_eq!(transition, DAY * 86400 + 8 * 3600);
}

#[test]
fn no_events_inside_evening_quiet_hours_is_busy_until_tomorrow_quiet_end() {
    let now = DAY * 86400 + 23 * 3600 + 1800;
    let (busy, transition) = busy_status_from_events(&Vec::new(), now, &quiet());
    assert!(busy);
    assert_eq!(transition, (DAY + 1) * 86400 + 8 * 3600);
}

#[test]
fn no_events_outside_quiet_hours_is_free_until_quiet_start() {
    let now = DAY * 86400 + 12 * 3600;
    let (busy, transition) = busy_status_from_events(&Vec::new(), now, &quiet());
    assert!(!busy);
    assert_eq!(transition, DAY * 86400 + 23 * 3600);
}

#[test]
fn quiet_hours_follow_the_configured_offset() {
    // Quiet hours 23:00-08:00 one hour east of UTC: noon UTC is free until
    // 22:00 UTC.
    let q = QuietHours { start_hour: 23, end_hour: 8, tz_offset: 3600 };
    let now = DAY * 86400 + 12 * 3600;
    let (busy, transition) = busy_status_from_events(&Vec::new(), now, &q);
    assert!(!busy);
    assert_eq!(transition, DAY * 86400 + 23 * 3600 - 3600);
}

#[test]
fn event_covering_now_extends_the_busy_chain() {
    let now = DAY * 86400 + 12 * 3600;
    let events = vec![CalendarEvent {
        cancelled: false,
        start: Some(EventTime::Instant { secs: now - 600 }),
        end: Some(EventTime::Instant { secs: now + 3000 }),
    }];
    let (busy, transition) = busy_status_from_events(&events, now, &quiet());
    assert!(busy);
    assert_eq!(transition, now + 3000);
}

#[test]
fn cancelled_event_is_ignored() {
    let now = DAY * 86400 + 12 * 3600;
    let events = vec![CalendarEvent {
        cancelled: true,
        start: Some(EventTime::Instant { secs: now - 600 }),
        end: Some(EventTime::Instant { secs: now + 3000 }),
    }];
    let (busy, transition) = busy_status_from_events(&events, now, &quiet());
    assert!(!busy);
    assert_eq!(transition, DAY * 86400 + 23 * 3600);
}

#[test]
fn event_with_unresolved_end_is_ignored() {
    let now = DAY * 86400 + 12 * 3600;
    let events = vec![CalendarEvent {
        cancelled: false,
        start: Some(EventTime::Instant { secs: now - 600 }),
        end: Some(EventTime::Unresolved),
    }];
    let (busy, _) = busy_status_from_events(&events, now, &quiet());
    assert!(!busy);
}

#[test]
fn event_outside_the_next_day_is_ignored() {
    let now = DAY * 86400 + 12 * 3600;
    let events = vec![CalendarEvent {
        cancelled: false,
        start: Some(EventTime::Instant { secs: now + 3 * 86400 }),
        end: Some(EventTime::Instant { secs: now + 4 * 86400 }),
    }];
    let (busy, transition) = busy_status_from_events(&events, now, &quiet());
    assert!(!busy);
    assert_eq!(transition, DAY * 86400 + 23 * 3600);
}

#[test]
fn all_day_event_blocks_from_local_midnight() {
    // An all-day event on the day of `now`, in a zone 3600 s east: it blocks
    // from 23:00 UTC the day before, so noon is busy; the event's end (the
    // day after, exclusive) merges with tonight's quiet hours.
    let q = QuietHours { start_hour: 23, end_hour: 8, tz_offset: 3600 };
    let now = DAY * 86400 + 12 * 3600;
    let events = vec![CalendarEvent {
        cancelled: false,
        start: Some(EventTime::AllDay { year: 2024, month: 5, day: 7 }),
        end: Some(EventTime::AllDay { year: 2024, month: 5, day: 8 }),
    }];
    let (busy, transition) = busy_status_from_events(&events, now, &q);
    assert!(busy);
    assert_eq!(transition, (DAY + 1) * 86400 + 8 * 3600 - 3600);
}

#[test]
fn days_from_civil_matches_known_dates() {
    assert_eq!(days_from_civil(1970, 1, 1), 0);
    assert_eq!(days_from_civil(1970, 1, 2), 1);
    assert_eq!(days_from_civil(2000, 1, 1), 10957);
    assert_eq!(days_from_civil(2024, 2, 29), 19782);
    assert_eq!(days_from_civil(2024, 3, 1), 19783);
    assert_eq!(days_from_civil(1969, 12, 31), -1);
    assert_eq!(days_from_civil(1900, 3, 1), -25508);
    assert_eq!(days_from_civil(2024, 5, 7), DAY);
}

#[test]
fn days_from_civil_matches_chrono() {
    let epoch = chrono::NaiveDate::from_ymd_opt(1970, 1, 1).unwrap();
    for (y, m, d) in [(1983, 7, 14), (2021, 12, 31), (2400, 2, 29), (1600, 10, 5)] {
        let date = chrono::NaiveDate::from_ymd_opt(y, m, d).unwrap();
        let expected = date.signed_duration_since(epoch).num_days();
        assert_eq!(days_from_civil(y, m as u8, d as u8), expected);
    }
}

#[test]
fn exactly_at_quiet_end_the_sweep_still_reports_busy() {
    // At the very instant the morning window closes, yesterday's window is
    // still added and touches `now`, so the sweep reports busy with the
    // transition at `now` itself.
    let now = DAY * 86400 + 8 * 3600;
    let (busy, transition) = busy_status_from_events(&Vec::new(), now, &quiet());
    assert!(busy);
    assert_eq!(transition, now);
}
