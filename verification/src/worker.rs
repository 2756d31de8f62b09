//! One tick of the availability worker, as the application's loop runs it:
//! take what the fetch returned, parse it, recompute the busy status, and
//! replace the shared cache only on change.

use crate::availability::{
    busy_status_from_events, spec_availability, spec_failure_step, spec_success_step,
    AvailabilityWorker, QuietHours, MAX_INSTANT,
};
use crate::cache::{format_utc_minutes, utc_minutes_text_of, AvailabilityCache, CalendarCache};
use crate::feed::{ical_events_of, ical_parses, parse_events};
use vstd::prelude::*;

verus! {

/// The cache value that stands for a computed `(busy, transition)` status.
pub open spec fn cache_entry_for(c: CalendarCache, status: (bool, int)) -> bool {
    c.is_busy == status.0 && c.timestamp@ == utc_minutes_text_of(status.1)
}

/// How one suppressed-or-real cache write relates the cache before and after:
/// a write happens exactly when the computed status differs from the cached
/// value, and only then does the write count move.
pub open spec fn cache_updated(
    before: AvailabilityCache,
    after: AvailabilityCache,
    status: (bool, int),
    wrote: bool,
) -> bool {
    &&& wrote == !cache_entry_for(before.value, status)
    &&& (!wrote ==> after == before)
    &&& (wrote ==> cache_entry_for(after.value, status) && after.writes == before.writes + 1)
}

/// One availability tick of an active worker.
///
/// `fetched` is what the network fetch returned, `None` for a failed fetch.
/// A failed fetch or an unparsable document counts against the consecutive
/// failure budget and leaves the cache alone; a parsable document clears the
/// budget, has its status recomputed, and replaces the cache exactly when
/// the status changed.  Returns whether the cache was written, and the
/// parser's message when the document did not parse, for the caller to log.
pub fn availability_tick(
    w: &mut AvailabilityWorker,
    cache: &mut AvailabilityCache,
    fetched: Option<&str>,
    now: i64,
    q: &QuietHours,
) -> (r: (bool, Option<String>))
    requires
        old(w).wf(),
        old(w).active(),
        q.wf(),
        -MAX_INSTANT <= now <= MAX_INSTANT,
        old(cache).writes < u64::MAX,
    ensures
        final(w).wf(),
        fetched is None ==> *final(w) == spec_failure_step(*old(w)) && *final(cache) == *old(
            cache,
        ) && !r.0 && r.1 is None,
        fetched matches Some(text) ==> (!ical_parses(text@) ==> *final(w) == spec_failure_step(
            *old(w),
        ) && *final(cache) == *old(cache) && !r.0 && r.1 is Some),
        fetched matches Some(text) ==> (ical_parses(text@) ==> *final(w) == spec_success_step(
            *old(w),
        ) && cache_updated(
            *old(cache),
            *final(cache),
            spec_availability(ical_events_of(text@), now as int, *q),
            r.0,
        ) && r.1 is None),
{
    match fetched {
        None => {
            w.record_failure();
            (false, None)
        },
        Some(text) => match parse_events(text) {
            Err(e) => {
                w.record_failure();
                (false, Some(e))
            },
            Ok(events) => {
                w.record_success();
                let status = busy_status_from_events(&events, now, q);
                let entry = CalendarCache {
                    is_busy: status.0,
                    timestamp: format_utc_minutes(status.1),
                };
                let wrote = cache.update(entry);
                (wrote, None)
            },
        },
    }
}

} // verus!
