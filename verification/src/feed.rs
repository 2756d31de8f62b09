//! The boundary to the calendar feed's document format: parsing an
//! iCalendar text into the plain event records the availability sweep reads.
//!
//! What a given text parses into is a function of the text alone, so the
//! result carries names: `ical_parses` says whether a text is a valid
//! document, `ical_events_of` what its records are.  The wrappers tie those
//! names to the parser; `parse_events` is then exact in them.

use crate::availability::{event_time_wf, events_wf, CalendarEvent, EventTime};
use chrono::Datelike;
use icalendar::Component;
use vstd::prelude::*;

verus! {

#[verifier::external_type_specification]
#[verifier::external_body]
pub struct ExCalendar(icalendar::Calendar);

#[verifier::external_type_specification]
#[verifier::external_body]
pub struct ExCalendarComponent(icalendar::CalendarComponent);

#[verifier::external_type_specification]
#[verifier::external_body]
pub struct ExEvent(icalendar::Event);

/// Whether a text parses as an iCalendar document.
pub uninterp spec fn ical_parses(text: Seq<char>) -> bool;

/// The plain event records of the document a text parses into: one per
/// VEVENT, in document order.
pub uninterp spec fn ical_events_of(text: Seq<char>) -> Seq<CalendarEvent>;

/// The plain event records a parsed calendar holds: one per VEVENT, in
/// document order.
pub uninterp spec fn calendar_records_of(cal: icalendar::Calendar) -> Seq<CalendarEvent>;

/// The plain record of one VEVENT: its cancellation flag and both ends.
pub uninterp spec fn event_record_of(e: icalendar::Event) -> CalendarEvent;

/// Relies on `str::parse::<icalendar::Calendar>`: `Ok` exactly when the
/// text parses as an iCalendar document, and then a calendar holding the
/// text's records; `Err` carries the parser's message.
#[verifier::external_body]
fn parse_calendar(text: &str) -> (r: Result<icalendar::Calendar, String>)
    ensures
        match r {
            Ok(cal) => ical_parses(text@) && calendar_records_of(cal) == ical_events_of(text@),
            Err(_) => !ical_parses(text@),
        },
{
    text.parse::<icalendar::Calendar>()
}

/// The records of a list of VEVENT components, in order.
pub open spec fn records_of_seq(s: Seq<icalendar::Event>) -> Seq<CalendarEvent>
    decreases s.len(),
{
    if s.len() == 0 {
        Seq::empty()
    } else {
        records_of_seq(s.drop_last()).push(event_record_of(s.last()))
    }
}

/// Relies on `icalendar::Calendar`'s public `components` list: hands out its
/// VEVENT components in document order, so their records are exactly the
/// calendar's records.
#[verifier::external_body]
fn calendar_events_raw(cal: icalendar::Calendar) -> (v: Vec<icalendar::Event>)
    ensures
        records_of_seq(v@) == calendar_records_of(cal),
{
    let mut out = Vec::new();
    for c in cal.components {
        if let icalendar::CalendarComponent::Event(e) = c {
            out.push(e);
        }
    }
    out
}

/// Relies on `icalendar::Event::get_status`: an event's record is cancelled
/// exactly when its STATUS property is CANCELLED.
#[verifier::external_body]
fn event_is_cancelled(e: &icalendar::Event) -> (r: bool)
    ensures
        r == event_record_of(*e).cancelled,
{
    matches!(e.get_status(), Some(icalendar::EventStatus::Cancelled))
}

/// Relies on `icalendar::Component::get_start`, chrono's `Datelike` field
/// accessors, and `icalendar::CalendarDateTime::try_into_utc`: the record's
/// start.  A DATE start keeps its civil fields (chrono dates have years
/// within ±262143, months in 1..=12, days in 1..=31), a DATE-TIME start
/// becomes its UTC timestamp (within chrono's range, far below
/// `MAX_INSTANT`), and a start whose zone reference cannot be resolved is
/// marked unresolved.
#[verifier::external_body]
fn event_start_raw(e: &icalendar::Event) -> (r: Option<EventTime>)
    ensures
        r == event_record_of(*e).start,
        r matches Some(t) ==> event_time_wf(t),
{
    match e.get_start() {
        None => None,
        Some(icalendar::DatePerhapsTime::Date(d)) => Some(
            EventTime::AllDay { year: d.year(), month: d.month() as u8, day: d.day() as u8 },
        ),
        Some(icalendar::DatePerhapsTime::DateTime(dt)) => match dt.try_into_utc() {
            Some(u) => Some(EventTime::Instant { secs: u.timestamp() }),
            None => Some(EventTime::Unresolved),
        },
    }
}

/// Relies on `icalendar::Component::get_end`, exactly as `event_start_raw`
/// relies on `get_start`.
#[verifier::external_body]
fn event_end_raw(e: &icalendar::Event) -> (r: Option<EventTime>)
    ensures
        r == event_record_of(*e).end,
        r matches Some(t) ==> event_time_wf(t),
{
    match e.get_end() {
        None => None,
        Some(icalendar::DatePerhapsTime::Date(d)) => Some(
            EventTime::AllDay { year: d.year(), month: d.month() as u8, day: d.day() as u8 },
        ),
        Some(icalendar::DatePerhapsTime::DateTime(dt)) => match dt.try_into_utc() {
            Some(u) => Some(EventTime::Instant { secs: u.timestamp() }),
            None => Some(EventTime::Unresolved),
        },
    }
}

/// Parses one fetched calendar document: the parser's message when the text
/// is not valid iCalendar, otherwise exactly the document's event records,
/// one per VEVENT, each well formed.
pub fn parse_events(text: &str) -> (r: Result<Vec<CalendarEvent>, String>)
    ensures
        r is Ok <==> ical_parses(text@),
        r matches Ok(evs) ==> evs@ == ical_events_of(text@) && events_wf(evs@),
{
    match parse_calendar(text) {
        Err(e) => Err(e),
        Ok(cal) => {
            let ghost target = ical_events_of(text@);
            let raw = calendar_events_raw(cal);
            let mut out: Vec<CalendarEvent> = Vec::new();
            let mut i: usize = 0;
            proof {
                assert(raw@.take(0) =~= Seq::<icalendar::Event>::empty());
            }
            while i < raw.len()
                invariant
                    i <= raw.len(),
                    records_of_seq(raw@) == target,
                    out@ == records_of_seq(raw@.take(i as int)),
                    events_wf(out@),
                decreases raw.len() - i,
            {
                let ev = CalendarEvent {
                    cancelled: event_is_cancelled(&raw[i]),
                    start: event_start_raw(&raw[i]),
                    end: event_end_raw(&raw[i]),
                };
                proof {
                    assert(ev == event_record_of(raw@[i as int]));
                    assert(raw@.take(i as int + 1).drop_last() =~= raw@.take(i as int));
                    assert(raw@.take(i as int + 1).last() == raw@[i as int]);
                }
                out.push(ev);
                i += 1;
            }
            proof {
                assert(raw@.take(raw@.len() as int) =~= raw@);
            }
            Ok(out)
        },
    }
}

} // verus!
