use enviame::availability::{AvailabilityWorker, EventTime, QuietHours, MAX_CONSECUTIVE_FAILURES};
use enviame::cache::AvailabilityCache;
use enviame::feed::parse_events;
use enviame::worker::availability_tick;

const DAY: i64 = 19850;

fn quiet() -> QuietHours {
    QuietHours { start_hour: 23, end_hour: 8, tz_offset: 0 }
}

const SIMPLE_ICS: &str = "BEGIN:VCALENDAR\r\nBEGIN:VEVENT\r\nUID:1\r\nDTSTART:20240101T100000Z\r\nDTEND:20240101T110000Z\r\nEND:VEVENT\r\nEND:VCALENDAR\r\n";

#[test]
fn parse_events_reads_a_timed_event() {
    let events = parse_events(SIMPLE_ICS).expect("document parses");
    assert_eq!(events.len(), 1);
    assert!(!events[0].cancelled);
    match events[0].start {
        Some(EventTime::Instant { secs }) => assert_eq!(secs, 1_704_103_200),
        _ => panic!("expected a timed start"),
    }
    match events[0].end {
        Some(EventTime::Instant { secs }) => assert_eq!(secs, 1_704_106_800),
        _ => panic!("expected a timed end"),
    }
}

#[test]
fn parse_events_reads_all_day_dates_and_cancellation() {
    let text = "BEGIN:VCALENDAR\r\nBEGIN:VEVENT\r\nUID:2\r\nSTATUS:CANCELLED\r\nDTSTART;VALUE=DATE:20240102\r\nDTEND;VALUE=DATE:20240103\r\nEND:VEVENT\r\nEND:VCALENDAR\r\n";
    let events = parse_events(text).expect("document parses");
    assert_eq!(events.len(), 1);
    assert!(events[0].cancelled);
    match events[0].start {
        Some(EventTime::AllDay { year, month, day }) => {
            assert_eq!((year, month, day), (2024, 1, 2));
        },
        _ => panic!("expected an all-day start"),
    }
}

#[test]
fn successful_tick_fills_the_cache_and_repeats_are_suppressed() {
    let mut worker = AvailabilityWorker::new();
    let mut cache = AvailabilityCache::starting();
    let now = DAY * 86400 + 12 * 3600;
    // The event of SIMPLE_ICS lies far in the past, so only quiet hours count.
    let (wrote, parse_error) = availability_tick(&mut worker, &mut cache, Some(SIMPLE_ICS), now, &quiet());
    assert!(wrote);
    assert!(parse_error.is_none());
    assert_eq!(cache.writes, 1);
    assert!(!cache.value.is_busy);
    let expected = chrono::DateTime::from_timestamp(DAY * 86400 + 23 * 3600, 0)
        .unwrap()
        .format("%Y-%m-%d %H:%M")
        .to_string();
    assert_eq!(cache.value.timestamp, expected);
    // The same status computed again takes the read-only path.
    let (wrote_again, _) = availability_tick(&mut worker, &mut cache, Some(SIMPLE_ICS), now, &quiet());
    assert!(!wrote_again);
    assert_eq!(cache.writes, 1);
    assert!(worker.is_active());
    assert_eq!(worker.consecutive_failures, 0);
}

#[test]
fn failed_ticks_exhaust_the_budget_and_stop_the_worker() {
    let mut worker = AvailabilityWorker::new();
    let mut cache = AvailabilityCache::starting();
    let now = DAY * 86400 + 12 * 3600;
    for k in 1..=MAX_CONSECUTIVE_FAILURES {
        assert!(worker.is_active());
        let (wrote, parse_error) = availability_tick(&mut worker, &mut cache, None, now, &quiet());
        assert!(!wrote);
        assert!(parse_error.is_none());
        assert_eq!(worker.consecutive_failures, k);
    }
    // The budget of five is spent: the loop asks no further ticks.
    assert!(!worker.is_active());
    assert_eq!(cache.writes, 0);
}

#[test]
fn a_success_resets_the_failure_streak() {
    let mut worker = AvailabilityWorker::new();
    let mut cache = AvailabilityCache::starting();
    let now = DAY * 86400 + 12 * 3600;
    availability_tick(&mut worker, &mut cache, None, now, &quiet());
    availability_tick(&mut worker, &mut cache, None, now, &quiet());
    assert_eq!(worker.consecutive_failures, 2);
    availability_tick(&mut worker, &mut cache, Some(SIMPLE_ICS), now, &quiet());
    assert_eq!(worker.consecutive_failures, 0);
    assert!(worker.is_active());
}

#[test]
fn an_unparsable_document_counts_as_a_failure() {
    let mut worker = AvailabilityWorker::new();
    let mut cache = AvailabilityCache::starting();
    let now = DAY * 86400 + 12 * 3600;
    let (wrote, parse_error) = availability_tick(&mut worker, &mut cache, Some("not a calendar"), now, &quiet());
    assert!(!wrote);
    assert!(parse_error.is_some());
    assert_eq!(worker.consecutive_failures, 1);
    assert_eq!(cache.writes, 0);
}

#[test]
fn parse_events_surfaces_the_parser_message() {
    let err = parse_events("not a calendar").expect_err("garbage does not parse");
    assert!(!err.is_empty());
    assert!(parse_events(SIMPLE_ICS).is_ok());
}
