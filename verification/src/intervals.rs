//! Blocking intervals and the left-to-right availability sweep.
//!
//! A blocking interval is a half-open time range `[start, end)` during which
//! the system counts as busy.  The sweep walks the intervals in ascending
//! order of start time, merging every interval that touches the chain that
//! covers `now`; it stops at the first gap.

use vstd::prelude::*;
use vstd::relations::{sorted_by, total_ordering};
use vstd::seq_lib::lemma_sorted_unique;

verus! {

/// Lexicographic order on `(start, end)` pairs, matching the order in which
/// the worker visits blocking intervals.
pub open spec fn interval_le(a: (i64, i64), b: (i64, i64)) -> bool {
    a.0 < b.0 || (a.0 == b.0 && a.1 <= b.1)
}

/// The same order as a first-class function, for use with `sort_by`.
pub open spec fn interval_order() -> spec_fn((i64, i64), (i64, i64)) -> bool {
    |a: (i64, i64), b: (i64, i64)| interval_le(a, b)
}

pub proof fn lemma_interval_order_total()
    ensures
        total_ordering(interval_order()),
{
}

pub proof fn lemma_interval_order_char(a: (i64, i64), b: (i64, i64))
    ensures
        (interval_order())(a, b) == interval_le(a, b),
{
}

/// Sorting leaves an already sorted interval list unchanged.
pub proof fn lemma_sort_fixes_sorted(s: Seq<(i64, i64)>)
    requires
        sorted_by(s, interval_order()),
    ensures
        s.sort_by(interval_order()) == s,
{
    lemma_interval_order_total();
    s.lemma_sort_by_ensures(interval_order());
    lemma_sorted_unique(s, s.sort_by(interval_order()), interval_order());
    assert(s.sort_by(interval_order()) =~= s);
}

/// One step of the sweep state: `busy` records whether any interval touched
/// the chain so far, `last_end` the furthest end of the chain, `gap_start`
/// the start of the first interval past the chain (meaningful once the sweep
/// stops early).
pub open spec fn spec_sweep(ivs: Seq<(i64, i64)>, busy: bool, last_end: int, gap_start: int) -> (
    bool,
    int,
    int,
)
    decreases ivs.len(),
{
    if ivs.len() == 0 {
        (busy, last_end, gap_start)
    } else if ivs[0].0 > last_end {
        (busy, last_end, ivs[0].0 as int)
    } else {
        spec_sweep(
            ivs.drop_first(),
            true,
            if ivs[0].1 > last_end {
                ivs[0].1 as int
            } else {
                last_end
            },
            gap_start,
        )
    }
}

/// The reported status for a list of blocking intervals already sorted by
/// start: busy together with the moment the chain covering `now` releases,
/// or free together with the start of the first upcoming interval (`now`
/// itself if there is none at all).
pub open spec fn spec_busy_status(ivs: Seq<(i64, i64)>, now: int) -> (bool, int) {
    let swept = spec_sweep(ivs, false, now, now);
    (swept.0, if swept.0 {
        swept.1
    } else {
        swept.2
    })
}

/// Sorts blocking intervals by start time (ties by end), as the worker does
/// before sweeping.
pub fn sort_intervals(v: Vec<(i64, i64)>) -> (r: Vec<(i64, i64)>)
    ensures
        r@ == v@.sort_by(interval_order()),
{
    let ghost ord = interval_order();
    let mut out: Vec<(i64, i64)> = Vec::new();
    let mut i: usize = 0;
    proof {
        assert(v@.take(0) =~= Seq::<(i64, i64)>::empty());
        assert(out@.to_multiset() =~= v@.take(0).to_multiset());
    }
    while i < v.len()
        invariant
            ord == interval_order(),
            i <= v.len(),
            sorted_by(out@, ord),
            out@.to_multiset() == v@.take(i as int).to_multiset(),
        decreases v.len() - i,
    {
        let x = v[i];
        let mut j: usize = 0;
        while j < out.len() && (out[j].0 < x.0 || (out[j].0 == x.0 && out[j].1 <= x.1))
            invariant
                ord == interval_order(),
                j <= out.len(),
                sorted_by(out@, ord),
                forall|k: int| 0 <= k < j ==> interval_le(out@[k], x),
            decreases out.len() - j,
        {
            j += 1;
        }
        proof {
            let inserted = out@.insert(j as int, x);
            out@.insert_ensures(j as int, x);
            assert(j < out.len() ==> !interval_le(out@[j as int], x));
            assert forall|p: int, q: int| 0 <= p < q < inserted.len() implies #[trigger] ord(
                inserted[p],
                inserted[q],
            ) by {
                if q < j {
                    assert(inserted[p] == out@[p] && inserted[q] == out@[q]);
                    assert(ord(out@[p], out@[q]));
                } else if p < j && q == j {
                    assert(inserted[p] == out@[p] && inserted[q] == x);
                    assert(interval_le(out@[p], x));
                    lemma_interval_order_char(out@[p], x);
                } else if p < j && q > j {
                    assert(inserted[p] == out@[p] && inserted[q] == out@[q - 1]);
                    if q - 1 == j {
                        assert(interval_le(out@[p], x));
                        assert(!interval_le(out@[j as int], x));
                        lemma_interval_order_char(out@[p], out@[j as int]);
                    } else {
                        assert(ord(out@[p], out@[q - 1]));
                    }
                } else if p == j && q > j {
                    assert(inserted[p] == x && inserted[q] == out@[q - 1]);
                    assert(!interval_le(out@[j as int], x));
                    lemma_interval_order_char(x, out@[j as int]);
                    if q - 1 > j {
                        assert(ord(out@[j as int], out@[q - 1]));
                        lemma_interval_order_char(out@[j as int], out@[q - 1]);
                        lemma_interval_order_char(x, out@[q - 1]);
                    }
                } else {
                    assert(inserted[p] == out@[p - 1] && inserted[q] == out@[q - 1]);
                    assert(ord(out@[p - 1], out@[q - 1]));
                }
            }
            vstd::seq_lib::to_multiset_insert(out@, j as int, x);
            vstd::seq_lib::to_multiset_build(v@.take(i as int), x);
            assert(v@.take(i as int).push(x) =~= v@.take(i as int + 1));
        }
        out.insert(j, x);
        i += 1;
    }
    proof {
        assert(v@.take(v.len() as int) =~= v@);
        v@.lemma_sort_by_ensures(ord);
        lemma_sorted_unique(out@, v@.sort_by(ord), ord);
        assert(out@ =~= v@.sort_by(ord));
    }
    out
}

/// The availability sweep over intervals sorted by start time.
///
/// Mirrors `spec_busy_status`: walks the chain of intervals touching `now`,
/// extends the chain's end across overlaps, and stops at the first gap.
pub fn sweep_intervals(ivs: &Vec<(i64, i64)>, now: i64) -> (r: (bool, i64))
    ensures
        (r.0, r.1 as int) == spec_busy_status(ivs@, now as int),
{
    let ghost full = spec_sweep(ivs@, false, now as int, now as int);
    let mut busy = false;
    let mut last_end: i64 = now;
    let mut first_start: i64 = now;
    let mut i: usize = 0;
    let mut stopped = false;
    proof {
        assert(ivs@.skip(0) =~= ivs@);
    }
    while !stopped && i < ivs.len()
        invariant
            i <= ivs.len(),
            !stopped ==> first_start == now,
            !stopped ==> full == spec_sweep(
                ivs@.skip(i as int),
                busy,
                last_end as int,
                now as int,
            ),
            stopped ==> full == (busy, last_end as int, first_start as int),
        decreases ivs.len() - i + (if stopped {
            0int
        } else {
            1int
        }),
    {
        let s: i64 = ivs[i].0;
        let e: i64 = ivs[i].1;
        proof {
            assert(ivs@.skip(i as int)[0] == ivs@[i as int]);
            assert(ivs@.skip(i as int).drop_first() =~= ivs@.skip(i as int + 1));
        }
        if s > last_end {
            first_start = s;
            stopped = true;
        } else {
            busy = true;
            if e > last_end {
                last_end = e;
            }
            i += 1;
        }
    }
    proof {
        if !stopped {
            assert(ivs@.skip(i as int) =~= Seq::<(i64, i64)>::empty());
        }
    }
    (busy, if busy {
        last_end
    } else {
        first_start
    })
}

} // verus!
