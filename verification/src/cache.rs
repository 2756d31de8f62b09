//! The shared availability cache: the last computed busy/free status with
//! its formatted transition time, plus a write counter that makes write
//! suppression observable.

use vstd::prelude::*;

verus! {

/// What the minute-precision formatter returns for a UTC timestamp.
pub uninterp spec fn utc_minutes_text_of(t: int) -> Seq<char>;

/// Relies on chrono's `DateTime::<Utc>::from_timestamp` and `format` with
/// `"%Y-%m-%d %H:%M"`: the text is a function of the timestamp alone (UTC,
/// locale-independent); a timestamp outside chrono's range gives the empty
/// fallback, which is equally a function of the timestamp.
#[verifier::external_body]
pub(crate) fn format_utc_minutes(t: i64) -> (r: String)
    ensures
        r@ == utc_minutes_text_of(t as int),
{
    match chrono::DateTime::from_timestamp(t, 0) {
        Some(d) => d.format("%Y-%m-%d %H:%M").to_string(),
        None => String::new(),
    }
}

/// The cached calendar status an HTTP query handler reads: busy or free, and
/// the formatted instant of the next transition.
pub struct CalendarCache {
    pub is_busy: bool,
    pub timestamp: String,
}

impl PartialEq for CalendarCache {
    fn eq(&self, other: &Self) -> (r: bool) {
        self.is_busy == other.is_busy && self.timestamp == other.timestamp
    }
}

impl vstd::std_specs::cmp::PartialEqSpecImpl for CalendarCache {
    open spec fn obeys_eq_spec() -> bool {
        true
    }

    open spec fn eq_spec(&self, other: &Self) -> bool {
        self.is_busy == other.is_busy && self.timestamp@ == other.timestamp@
    }
}

impl CalendarCache {
    /// The copy handed to readers of the shared cache.
    pub fn snapshot(&self) -> (r: CalendarCache)
        ensures
            r.is_busy == self.is_busy,
            r.timestamp@ == self.timestamp@,
    {
        CalendarCache { is_busy: self.is_busy, timestamp: self.timestamp.clone() }
    }
}

/// Two cache values are the same exactly when both fields agree.
pub open spec fn cache_eq(a: CalendarCache, b: CalendarCache) -> bool {
    a.is_busy == b.is_busy && a.timestamp@ == b.timestamp@
}

/// The availability worker's view of the shared cache: the guarded value and
/// how many times it was really replaced.
pub struct AvailabilityCache {
    pub value: CalendarCache,
    pub writes: u64,
}

impl AvailabilityCache {
    /// The placeholder installed at process start: not busy, with a
    /// far-future transition.
    pub fn starting() -> (c: Self)
        ensures
            !c.value.is_busy,
            c.value.timestamp@ == "2099-12-31 23:59"@,
            c.writes == 0,
    {
        AvailabilityCache {
            value: CalendarCache {
                is_busy: false,
                timestamp: String::from_str("2099-12-31 23:59"),
            },
            writes: 0,
        }
    }

    /// Replace the cached status only when it changed.  A value equal to the
    /// cached one takes the read-only comparison path and leaves both the
    /// value and the write count untouched.
    pub fn update(&mut self, new_value: CalendarCache) -> (wrote: bool)
        requires
            old(self).writes < u64::MAX,
        ensures
            wrote == !cache_eq(old(self).value, new_value),
            !wrote ==> *final(self) == *old(self),
            wrote ==> final(self).value == new_value && final(self).writes == old(self).writes
                + 1,
    {
        if self.value == new_value {
            false
        } else {
            self.value = new_value;
            self.writes = self.writes + 1;
            true
        }
    }
}

} // verus!
