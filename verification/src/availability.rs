//! From parsed calendar events and configured quiet hours to a single
//! busy/free status with the next transition instant.
//!
//! Times are seconds since 1970-01-01 UTC.  The configured time zone enters
//! as a fixed offset in seconds east of UTC: a local wall-clock moment is the
//! UTC instant `wall - offset`.  The offset is sampled once per computation
//! (the caller takes it from the zone at the current instant), so a zone's
//! seasonal shifts enter through the sampled value; within the day around a
//! shift the window edges follow the offset in force at `now`.

use crate::civil::{days_from_civil, spec_days_from_civil, YEAR_BOUND};
use crate::intervals::{
    interval_order, spec_busy_status, spec_sweep, sort_intervals, sweep_intervals,
};
use vstd::prelude::*;

verus! {

/// All instants this module computes with stay well inside this bound; the
/// calendar library cannot represent moments anywhere near it.
pub const MAX_INSTANT: i64 = 10_000_000_000_000;

/// A start or end taken from one calendar event: an all-day date (midnight in
/// the configured zone), an absolute UTC instant, or a moment the feed's own
/// time-zone reference left unresolvable.
#[derive(Clone, Copy, Debug)]
pub enum EventTime {
    AllDay { year: i32, month: u8, day: u8 },
    Instant { secs: i64 },
    Unresolved,
}

/// A calendar event reduced to what the availability sweep reads.
#[derive(Clone, Copy, Debug)]
pub struct CalendarEvent {
    pub cancelled: bool,
    pub start: Option<EventTime>,
    pub end: Option<EventTime>,
}

pub open spec fn event_time_wf(t: EventTime) -> bool {
    match t {
        EventTime::AllDay { year, month, day } => -YEAR_BOUND <= year <= YEAR_BOUND && 1 <= month
            <= 12 && 1 <= day <= 31,
        EventTime::Instant { secs } => -MAX_INSTANT <= secs <= MAX_INSTANT,
        EventTime::Unresolved => true,
    }
}

pub open spec fn event_wf(e: CalendarEvent) -> bool {
    &&& (e.start matches Some(t) ==> event_time_wf(t))
    &&& (e.end matches Some(t) ==> event_time_wf(t))
}

pub open spec fn events_wf(evs: Seq<CalendarEvent>) -> bool {
    forall|i: int| 0 <= i < evs.len() ==> event_wf(#[trigger] evs[i])
}

/// The UTC instant an event time stands for, if it resolved: all-day dates
/// become midnight in the configured zone.
pub open spec fn spec_resolve_event_time(t: EventTime, tz: int) -> Option<int> {
    match t {
        EventTime::AllDay { year, month, day } => Some(
            86400 * spec_days_from_civil(year as int, month as int, day as int) - tz,
        ),
        EventTime::Instant { secs } => Some(secs as int),
        EventTime::Unresolved => None,
    }
}

pub fn resolve_event_time(t: &EventTime, tz: i64) -> (r: Option<i64>)
    requires
        event_time_wf(*t),
        -86400 <= tz <= 86400,
    ensures
        match r {
            Some(v) => spec_resolve_event_time(*t, tz as int) == Some(v as int) && -MAX_INSTANT
                - 86400 <= v <= MAX_INSTANT + 86400,
            None => spec_resolve_event_time(*t, tz as int) is None,
        },
{
    match t {
        EventTime::AllDay { year, month, day } => {
            let days = days_from_civil(*year, *month, *day);
            Some(86400 * days - tz)
        },
        EventTime::Instant { secs } => Some(*secs),
        EventTime::Unresolved => None,
    }
}

/// The blocking interval an event contributes before the 24-hour horizon is
/// applied: present when the event is not cancelled and both of its ends
/// resolved.
pub open spec fn spec_event_interval(e: CalendarEvent, tz: int) -> Option<(int, int)> {
    if e.cancelled {
        None
    } else {
        match e.start {
            Some(s) => match e.end {
                Some(t) => match spec_resolve_event_time(s, tz) {
                    Some(a) => match spec_resolve_event_time(t, tz) {
                        Some(b) => Some((a, b)),
                        None => None,
                    },
                    None => None,
                },
                None => None,
            },
            None => None,
        }
    }
}

/// The blocking intervals of the events that overlap `[now, now + 24h)`, in
/// feed order.
pub open spec fn spec_event_intervals(evs: Seq<CalendarEvent>, now: int, tz: int) -> Seq<
    (i64, i64),
>
    decreases evs.len(),
{
    if evs.len() == 0 {
        Seq::empty()
    } else {
        let rest = spec_event_intervals(evs.drop_first(), now, tz);
        match spec_event_interval(evs[0], tz) {
            Some(iv) => {
                if iv.1 >= now && iv.0 <= now + 86400 {
                    seq![(iv.0 as i64, iv.1 as i64)] + rest
                } else {
                    rest
                }
            },
            None => rest,
        }
    }
}

pub fn collect_event_intervals(events: &Vec<CalendarEvent>, now: i64, tz: i64) -> (r: Vec<
    (i64, i64),
>)
    requires
        events_wf(events@),
        -MAX_INSTANT <= now <= MAX_INSTANT,
        -86400 <= tz <= 86400,
    ensures
        r@ == spec_event_intervals(events@, now as int, tz as int),
{
    let ghost full = spec_event_intervals(events@, now as int, tz as int);
    let mut out: Vec<(i64, i64)> = Vec::new();
    let mut i: usize = 0;
    proof {
        assert(events@.skip(0) =~= events@);
    }
    while i < events.len()
        invariant
            i <= events.len(),
            events_wf(events@),
            -MAX_INSTANT <= now <= MAX_INSTANT,
            -86400 <= tz <= 86400,
            full == spec_event_intervals(events@, now as int, tz as int),
            full == out@ + spec_event_intervals(
                events@.skip(i as int),
                now as int,
                tz as int,
            ),
        decreases events.len() - i,
    {
        let e = events[i];
        proof {
            assert(events@.skip(i as int)[0] == events@[i as int]);
            assert(events@.skip(i as int).drop_first() =~= events@.skip(i as int + 1));
        }
        let ghost before = out@;
        if !e.cancelled {
            match e.start {
                Some(s) => match e.end {
                    Some(t) => {
                        match resolve_event_time(&s, tz) {
                            Some(a) => match resolve_event_time(&t, tz) {
                                Some(b) => {
                                    if b >= now && a <= now + 86400 {
                                        out.push((a, b));
                                    }
                                },
                                None => {},
                            },
                            None => {},
                        }
                    },
                    None => {},
                },
                None => {},
            }
        }
        proof {
            let tail = spec_event_intervals(events@.skip(i as int + 1), now as int, tz as int);
            if out@ != before {
                assert(out@ =~= before + seq![out@[out@.len() - 1]]);
                assert((before + seq![out@[out@.len() - 1]]) + tail =~= before + (seq![
                    out@[out@.len() - 1],
                ] + tail));
            }
        }
        i += 1;
    }
    proof {
        assert(events@.skip(events@.len() as int) =~= Seq::<CalendarEvent>::empty());
        assert(full =~= out@ + Seq::<(i64, i64)>::empty());
        assert(out@ + Seq::<(i64, i64)>::empty() =~= out@);
    }
    out
}

/// The configured quiet hours: a daily always-busy window from `start_hour`
/// to `end_hour` local wall-clock time, in a zone `tz_offset` seconds east of
/// UTC.
pub struct QuietHours {
    pub start_hour: u8,
    pub end_hour: u8,
    pub tz_offset: i64,
}

impl QuietHours {
    pub open spec fn wf(self) -> bool {
        self.start_hour < 24 && self.end_hour < 24 && -86400 <= self.tz_offset <= 86400
    }
}

/// The UTC calendar day `now` falls on, as days since the epoch.
pub open spec fn spec_utc_day(now: int) -> int {
    now / 86400
}

/// Hour `hour` local wall-clock time on the UTC day of `now` shifted by
/// `day_offset` days, as a UTC instant.
pub open spec fn spec_window_time(now: int, day_offset: int, hour: int, tz: int) -> int {
    86400 * (spec_utc_day(now) + day_offset) + 3600 * hour - tz
}

/// The one or two quiet-hours windows the worker always adds: yesterday's
/// window while its end has not passed, and today's window in any case.
pub open spec fn spec_quiet_windows(now: int, q: QuietHours) -> Seq<(i64, i64)> {
    let ys = spec_window_time(now, -1, q.start_hour as int, q.tz_offset as int);
    let te = spec_window_time(now, 0, q.end_hour as int, q.tz_offset as int);
    let ts = spec_window_time(now, 0, q.start_hour as int, q.tz_offset as int);
    let tme = spec_window_time(now, 1, q.end_hour as int, q.tz_offset as int);
    if te >= now {
        seq![(ys as i64, te as i64), (ts as i64, tme as i64)]
    } else {
        seq![(ts as i64, tme as i64)]
    }
}

pub fn quiet_windows(now: i64, q: &QuietHours) -> (r: Vec<(i64, i64)>)
    requires
        q.wf(),
        -MAX_INSTANT <= now <= MAX_INSTANT,
    ensures
        r@ == spec_quiet_windows(now as int, *q),
{
    let day = match now.checked_div_euclid(86400) {
        Some(d) => d,
        None => 0,  // unreachable: the divisor is a positive constant
    };
    proof {
        vstd::arithmetic::div_mod::lemma_fundamental_div_mod(now as int, 86400);
        assert(86400 * (day as int) == now - (now as int) % 86400);
    }
    let ys = 86400 * (day - 1) + 3600 * (q.start_hour as i64) - q.tz_offset;
    let te = 86400 * day + 3600 * (q.end_hour as i64) - q.tz_offset;
    let ts = 86400 * day + 3600 * (q.start_hour as i64) - q.tz_offset;
    let tme = 86400 * (day + 1) + 3600 * (q.end_hour as i64) - q.tz_offset;
    let mut v: Vec<(i64, i64)> = Vec::new();
    if te >= now {
        v.push((ys, te));
    }
    v.push((ts, tme));
    proof {
        assert(v@ =~= spec_quiet_windows(now as int, *q));
    }
    v
}

/// Every blocking interval of one availability tick: event intervals in feed
/// order, then the quiet-hours windows.
pub open spec fn spec_blocking_intervals(evs: Seq<CalendarEvent>, now: int, q: QuietHours) -> Seq<
    (i64, i64),
> {
    spec_event_intervals(evs, now, q.tz_offset as int) + spec_quiet_windows(now, q)
}

/// What one availability tick reports for these events at this moment.
pub open spec fn spec_availability(evs: Seq<CalendarEvent>, now: int, q: QuietHours) -> (
    bool,
    int,
) {
    spec_busy_status(spec_blocking_intervals(evs, now, q).sort_by(interval_order()), now)
}

/// One availability computation: build the blocking intervals, sort them by
/// start time, and sweep from `now`.
pub fn busy_status_from_events(events: &Vec<CalendarEvent>, now: i64, q: &QuietHours) -> (r: (
    bool,
    i64,
))
    requires
        events_wf(events@),
        q.wf(),
        -MAX_INSTANT <= now <= MAX_INSTANT,
    ensures
        (r.0, r.1 as int) == spec_availability(events@, now as int, *q),
{
    let mut ivs = collect_event_intervals(events, now, q.tz_offset);
    let mut qw = quiet_windows(now, q);
    ivs.append(&mut qw);
    let sorted = sort_intervals(ivs);
    sweep_intervals(&sorted, now)
}

/// Start of yesterday's quiet-hours window, as a UTC instant.
pub open spec fn quiet_yesterday_start(now: int, q: QuietHours) -> int {
    spec_window_time(now, -1, q.start_hour as int, q.tz_offset as int)
}

/// End of yesterday's quiet-hours window (this morning), as a UTC instant.
pub open spec fn quiet_today_end(now: int, q: QuietHours) -> int {
    spec_window_time(now, 0, q.end_hour as int, q.tz_offset as int)
}

/// Start of today's quiet-hours window (tonight), as a UTC instant.
pub open spec fn quiet_today_start(now: int, q: QuietHours) -> int {
    spec_window_time(now, 0, q.start_hour as int, q.tz_offset as int)
}

/// End of today's quiet-hours window (tomorrow morning), as a UTC instant.
pub open spec fn quiet_tomorrow_end(now: int, q: QuietHours) -> int {
    spec_window_time(now, 1, q.end_hour as int, q.tz_offset as int)
}

proof fn lemma_window_time_range(now: int, d: int, h: int, tz: int)
    requires
        -MAX_INSTANT <= now <= MAX_INSTANT,
        -1 <= d <= 1,
        0 <= h < 24,
        -86400 <= tz <= 86400,
    ensures
        -MAX_INSTANT - 300000 <= spec_window_time(now, d, h, tz) <= MAX_INSTANT + 300000,
{
    vstd::arithmetic::div_mod::lemma_fundamental_div_mod(now, 86400);
    vstd::arithmetic::div_mod::lemma_mod_division_less_than_divisor(now, 86400);
    assert(86400 * (spec_utc_day(now) + d) == now - now % 86400 + 86400 * d);
}

/// With no event intervals and `now` inside the quiet-hours window (quiet
/// hours crossing midnight, as configured), one tick reports busy, with the
/// transition at the end of the window that contains `now`.
pub proof fn lemma_no_events_inside_quiet_hours(evs: Seq<CalendarEvent>, now: int, q: QuietHours)
    requires
        q.wf(),
        q.end_hour < q.start_hour,
        -MAX_INSTANT <= now <= MAX_INSTANT,
        spec_event_intervals(evs, now, q.tz_offset as int) == Seq::<(i64, i64)>::empty(),
        quiet_yesterday_start(now, q) <= now < quiet_today_end(now, q) || quiet_today_start(
            now,
            q,
        ) <= now < quiet_tomorrow_end(now, q),
    ensures
        spec_availability(evs, now, q).0,
        now < quiet_today_end(now, q) ==> spec_availability(evs, now, q).1 == quiet_today_end(
            now,
            q,
        ),
        now >= quiet_today_start(now, q) ==> spec_availability(evs, now, q).1
            == quiet_tomorrow_end(now, q),
{
    let tz = q.tz_offset as int;
    let ys = quiet_yesterday_start(now, q);
    let te = quiet_today_end(now, q);
    let ts = quiet_today_start(now, q);
    let tme = quiet_tomorrow_end(now, q);
    lemma_window_time_range(now, -1, q.start_hour as int, tz);
    lemma_window_time_range(now, 0, q.end_hour as int, tz);
    lemma_window_time_range(now, 0, q.start_hour as int, tz);
    lemma_window_time_range(now, 1, q.end_hour as int, tz);
    assert(te < ts);
    assert(tme == te + 86400);
    let qw = spec_quiet_windows(now, q);
    assert(spec_blocking_intervals(evs, now, q) =~= qw);
    if now < te {
        let s = seq![(ys as i64, te as i64), (ts as i64, tme as i64)];
        assert(qw =~= s);
        assert forall|i: int, j: int| 0 <= i < j < s.len() implies #[trigger] (interval_order())(
            s[i],
            s[j],
        ) by {
            crate::intervals::lemma_interval_order_char(s[i], s[j]);
            assert(ys < ts);
        }
        crate::intervals::lemma_sort_fixes_sorted(s);
        let s1 = s.drop_first();
        assert(s1 =~= seq![(ts as i64, tme as i64)]);
        assert(spec_sweep(s, false, now, now) == spec_sweep(s1, true, te, now));
        assert(s1.drop_first() =~= Seq::<(i64, i64)>::empty());
        assert(spec_sweep(s1, true, te, now) == (true, te, ts));
        assert(spec_availability(evs, now, q) == (true, te));
    } else {
        assert(ts <= now < tme);
        assert(te < now);
        let s = seq![(ts as i64, tme as i64)];
        assert(qw =~= s);
        assert(vstd::relations::sorted_by(s, interval_order()));
        crate::intervals::lemma_sort_fixes_sorted(s);
        assert(s.drop_first() =~= Seq::<(i64, i64)>::empty());
        assert(spec_sweep(s, false, now, now) == spec_sweep(s.drop_first(), true, tme, now));
        assert(spec_sweep(s.drop_first(), true, tme, now) == (true, tme, now));
        assert(spec_availability(evs, now, q) == (true, tme));
    }
}

/// With no event intervals and `now` strictly between this morning's
/// quiet-hours end and tonight's start, one tick reports free, with the
/// transition at the next quiet-hours start.
pub proof fn lemma_no_events_outside_quiet_hours(evs: Seq<CalendarEvent>, now: int, q: QuietHours)
    requires
        q.wf(),
        q.end_hour < q.start_hour,
        -MAX_INSTANT <= now <= MAX_INSTANT,
        spec_event_intervals(evs, now, q.tz_offset as int) == Seq::<(i64, i64)>::empty(),
        quiet_today_end(now, q) < now < quiet_today_start(now, q),
    ensures
        !spec_availability(evs, now, q).0,
        spec_availability(evs, now, q).1 == quiet_today_start(now, q),
{
    let tz = q.tz_offset as int;
    let te = quiet_today_end(now, q);
    let ts = quiet_today_start(now, q);
    let tme = quiet_tomorrow_end(now, q);
    lemma_window_time_range(now, 0, q.end_hour as int, tz);
    lemma_window_time_range(now, 0, q.start_hour as int, tz);
    lemma_window_time_range(now, 1, q.end_hour as int, tz);
    let qw = spec_quiet_windows(now, q);
    assert(spec_blocking_intervals(evs, now, q) =~= qw);
    let s = seq![(ts as i64, tme as i64)];
    assert(qw =~= s);
    assert(vstd::relations::sorted_by(s, interval_order()));
    crate::intervals::lemma_sort_fixes_sorted(s);
    assert(spec_sweep(s, false, now, now) == (false, now, ts));
    assert(spec_availability(evs, now, q) == (false, ts));
}

/// Back-to-back failures the availability worker tolerates before it stops
/// for the rest of the process lifetime.
pub const MAX_CONSECUTIVE_FAILURES: u16 = 5;

/// Seconds between two availability ticks.
pub const TICK_INTERVAL_SECONDS: u64 = 120;

/// The availability worker's own state: the count of back-to-back external
/// failures, and whether the worker has permanently stopped.
#[derive(Clone, Copy, PartialEq, Eq, Structural)]
pub struct AvailabilityWorker {
    pub consecutive_failures: u16,
    pub stopped: bool,
}

impl AvailabilityWorker {
    pub open spec fn wf(self) -> bool {
        self.consecutive_failures <= MAX_CONSECUTIVE_FAILURES && (!self.stopped
            ==> self.consecutive_failures < MAX_CONSECUTIVE_FAILURES)
    }

    pub open spec fn active(self) -> bool {
        !self.stopped
    }

    pub fn new() -> (w: Self)
        ensures
            w.wf(),
            w.active(),
            w.consecutive_failures == 0,
    {
        AvailabilityWorker { consecutive_failures: 0, stopped: false }
    }

    /// Whether the worker loop takes another tick.
    pub fn is_active(&self) -> (r: bool)
        ensures
            r == self.active(),
    {
        !self.stopped
    }

    /// One more failed fetch or parse: count it, and stop for good once the
    /// budget is used up.
    pub fn record_failure(&mut self)
        requires
            old(self).wf(),
            old(self).active(),
        ensures
            *final(self) == spec_failure_step(*old(self)),
            final(self).wf(),
    {
        self.consecutive_failures = self.consecutive_failures + 1;
        if self.consecutive_failures >= MAX_CONSECUTIVE_FAILURES {
            self.stopped = true;
        }
    }

    /// A successful tick clears the failure streak.
    pub fn record_success(&mut self)
        requires
            old(self).wf(),
            old(self).active(),
        ensures
            *final(self) == spec_success_step(*old(self)),
            final(self).wf(),
    {
        self.consecutive_failures = 0;
    }
}

pub open spec fn spec_failure_step(w: AvailabilityWorker) -> AvailabilityWorker {
    AvailabilityWorker {
        consecutive_failures: (w.consecutive_failures + 1) as u16,
        stopped: w.stopped || w.consecutive_failures + 1 >= MAX_CONSECUTIVE_FAILURES,
    }
}

pub open spec fn spec_success_step(w: AvailabilityWorker) -> AvailabilityWorker {
    AvailabilityWorker { consecutive_failures: 0, stopped: w.stopped }
}

/// One tick as the worker loop sees it: a stopped worker ticks no more, so
/// its state never changes again; otherwise a failed tick counts against the
/// budget and a successful one clears it.
pub open spec fn spec_tick(w: AvailabilityWorker, failed: bool) -> AvailabilityWorker {
    if w.stopped {
        w
    } else if failed {
        spec_failure_step(w)
    } else {
        spec_success_step(w)
    }
}

/// The worker state after a run of tick outcomes (`true` marks a failure).
pub open spec fn spec_run(w: AvailabilityWorker, outcomes: Seq<bool>) -> AvailabilityWorker
    decreases outcomes.len(),
{
    if outcomes.len() == 0 {
        w
    } else {
        spec_run(spec_tick(w, outcomes[0]), outcomes.drop_first())
    }
}

/// A stopped worker performs no further ticks: whatever outcomes follow, its
/// state stays exactly as it was.
pub proof fn lemma_stopped_worker_stays_stopped(w: AvailabilityWorker, outcomes: Seq<bool>)
    requires
        w.stopped,
    ensures
        spec_run(w, outcomes) == w,
    decreases outcomes.len(),
{
    if outcomes.len() > 0 {
        lemma_stopped_worker_stays_stopped(w, outcomes.drop_first());
    }
}

proof fn lemma_failures_exhaust_budget(w: AvailabilityWorker, outcomes: Seq<bool>)
    requires
        w.wf(),
        forall|i: int| 0 <= i < outcomes.len() ==> outcomes[i],
        w.consecutive_failures + outcomes.len() >= MAX_CONSECUTIVE_FAILURES,
    ensures
        spec_run(w, outcomes).stopped,
    decreases outcomes.len(),
{
    if w.stopped {
        lemma_stopped_worker_stays_stopped(w, outcomes);
    } else {
        let next = spec_tick(w, outcomes[0]);
        assert(next == spec_failure_step(w));
        lemma_failures_exhaust_budget(next, outcomes.drop_first());
    }
}

/// After `MAX_CONSECUTIVE_FAILURES` consecutive failed ticks, the worker has
/// stopped permanently, whatever state it started from.
pub proof fn lemma_failure_budget_stops_worker(w: AvailabilityWorker, outcomes: Seq<bool>)
    requires
        w.wf(),
        forall|i: int| 0 <= i < outcomes.len() ==> outcomes[i],
        outcomes.len() >= MAX_CONSECUTIVE_FAILURES,
    ensures
        spec_run(w, outcomes).stopped,
{
    lemma_failures_exhaust_budget(w, outcomes);
}

} // verus!
