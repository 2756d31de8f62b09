use enviame::intervals::{sort_intervals, sweep_intervals};

#[test]
fn sweep_merges_overlapping_chain_and_ignores_later_gap() {
    // The first two intervals chain together; the third lies past the first
    // gap and is not consulted.
    let ivs = sort_intervals(vec![(1, 3), (2, 5), (7, 9)]);
    let (busy, transition) = sweep_intervals(&ivs, 1);
    assert!(busy);
    assert_eq!(transition, 5);
}

#[test]
fn sweep_stops_at_a_gap_before_the_first_interval() {
    // A start strictly after `now` is already a gap: nothing merges.
    let ivs = sort_intervals(vec![(1, 3), (2, 5), (7, 9)]);
    let (busy, transition) = sweep_intervals(&ivs, 0);
    assert!(!busy);
    assert_eq!(transition, 1);
}

#[test]
fn sweep_without_intervals_reports_free_at_now() {
    let ivs: Vec<(i64, i64)> = Vec::new();
    let (busy, transition) = sweep_intervals(&ivs, 42);
    assert!(!busy);
    assert_eq!(transition, 42);
}

#[test]
fn sweep_reports_first_future_start_when_free() {
    let ivs = sort_intervals(vec![(5, 8), (10, 12)]);
    let (busy, transition) = sweep_intervals(&ivs, 0);
    assert!(!busy);
    assert_eq!(transition, 5);
}

#[test]
fn sweep_extends_across_touching_intervals() {
    let ivs = sort_intervals(vec![(0, 4), (4, 6), (6, 7)]);
    let (busy, transition) = sweep_intervals(&ivs, 0);
    assert!(busy);
    assert_eq!(transition, 7);
}

#[test]
fn sweep_keeps_longest_end_of_contained_intervals() {
    let ivs = sort_intervals(vec![(0, 10), (2, 3)]);
    let (busy, transition) = sweep_intervals(&ivs, 1);
    assert!(busy);
    assert_eq!(transition, 10);
}

#[test]
fn sort_orders_by_start_then_end() {
    let sorted = sort_intervals(vec![(7, 9), (1, 3), (2, 5), (1, 2)]);
    assert_eq!(sorted, vec![(1, 2), (1, 3), (2, 5), (7, 9)]);
}
