//! Tests of the epsilon search state machine on synthetic trial results.

use gpx_tools::epsilon_search::{EpsilonSearch, TrialTolerance};

/// Per-segment index lists whose lengths are the given counts.
fn indices_with_counts(counts: &[usize]) -> Vec<Vec<usize>> {
    counts.iter().map(|&n| (0..n).collect()).collect()
}

#[test]
fn begin_requests_doubling_of_initial_epsilon() {
    let initial = 0.001f64.to_bits();
    let search = EpsilonSearch::begin(10, 20, initial);
    assert_eq!(search.pending_request(), Some(TrialTolerance::DoubleOf(initial)));
    assert_eq!(search.iterations, 0);
    assert_eq!(search.min_eps_bits, 0);
}

#[test]
fn expansion_keeps_doubling_while_over_budget() {
    let e0 = 1.0f64.to_bits();
    let e1 = 2.0f64.to_bits();
    let e2 = 4.0f64.to_bits();
    let mut search = EpsilonSearch::begin(10, 20, e0);
    search.record_trial(e1, indices_with_counts(&[12]));
    assert_eq!(search.best_count, 12);
    assert_eq!(search.iterations, 1);
    assert_eq!(search.pending_request(), Some(TrialTolerance::DoubleOf(e1)));
    search.record_trial(e2, indices_with_counts(&[11]));
    assert_eq!(search.best_count, 11);
    assert_eq!(search.pending_request(), Some(TrialTolerance::DoubleOf(e2)));
}

#[test]
fn expansion_ends_once_within_budget() {
    let e0 = 1.0f64.to_bits();
    let e1 = 2.0f64.to_bits();
    let mut search = EpsilonSearch::begin(10, 20, e0);
    search.record_trial(e1, indices_with_counts(&[8]));
    assert_eq!(search.best_count, 8);
    assert_eq!(
        search.pending_request(),
        Some(TrialTolerance::MidpointOf(0, e1))
    );
}

#[test]
fn bisection_accepts_improvement_within_budget() {
    let e1 = 2.0f64.to_bits();
    let mid = 1.0f64.to_bits();
    let mut search = EpsilonSearch::begin(10, 20, 1.0f64.to_bits());
    search.record_trial(e1, indices_with_counts(&[8]));
    search.record_trial(mid, indices_with_counts(&[9]));
    assert_eq!(search.best_count, 9);
    assert_eq!(search.best_indices, indices_with_counts(&[9]));
}

#[test]
fn bisection_rejects_fewer_points() {
    let e1 = 2.0f64.to_bits();
    let mid = 1.0f64.to_bits();
    let mut search = EpsilonSearch::begin(10, 20, 1.0f64.to_bits());
    search.record_trial(e1, indices_with_counts(&[8]));
    search.record_trial(mid, indices_with_counts(&[5]));
    assert_eq!(search.best_count, 8);
    assert_eq!(search.best_indices, indices_with_counts(&[8]));
}

#[test]
fn bisection_rejects_over_budget_trial() {
    let e1 = 2.0f64.to_bits();
    let mid = 1.0f64.to_bits();
    let mut search = EpsilonSearch::begin(10, 20, 1.0f64.to_bits());
    search.record_trial(e1, indices_with_counts(&[8]));
    search.record_trial(mid, indices_with_counts(&[11]));
    assert_eq!(search.best_count, 8);
}

#[test]
fn bisection_stops_when_budget_hit_exactly() {
    let e1 = 2.0f64.to_bits();
    let mid = 1.0f64.to_bits();
    let mut search = EpsilonSearch::begin(10, 20, 1.0f64.to_bits());
    search.record_trial(e1, indices_with_counts(&[8]));
    search.record_trial(mid, indices_with_counts(&[10]));
    assert_eq!(search.best_count, 10);
    assert_eq!(search.pending_request(), None);
    let outcome = search.into_outcome();
    assert!(outcome.met_budget);
    assert_eq!(outcome.point_count, 10);
    assert_eq!(outcome.iterations, 2);
}

#[test]
fn bracket_tightens_towards_larger_tolerances_under_budget() {
    let e1 = 2.0f64.to_bits();
    let mid = 1.0f64.to_bits();
    let mut search = EpsilonSearch::begin(10, 20, 1.0f64.to_bits());
    search.record_trial(e1, indices_with_counts(&[8]));
    // Below the budget: the tolerance was too aggressive, search lower.
    search.record_trial(mid, indices_with_counts(&[6]));
    assert_eq!(search.max_eps_bits, mid);
    assert_eq!(search.min_eps_bits, 0);
}

#[test]
fn bracket_tightens_towards_smaller_tolerances_at_or_over_budget() {
    let e1 = 2.0f64.to_bits();
    let mid = 1.0f64.to_bits();
    let mut search = EpsilonSearch::begin(10, 20, 1.0f64.to_bits());
    search.record_trial(e1, indices_with_counts(&[8]));
    search.record_trial(mid, indices_with_counts(&[11]));
    assert_eq!(search.min_eps_bits, mid);
    assert_eq!(search.max_eps_bits, e1);
}

#[test]
fn exhausted_expansion_reports_best_effort_over_budget() {
    let e1 = 2.0f64.to_bits();
    let e2 = 4.0f64.to_bits();
    let e3 = 8.0f64.to_bits();
    let mut search = EpsilonSearch::begin(10, 3, 1.0f64.to_bits());
    search.record_trial(e1, indices_with_counts(&[20]));
    search.record_trial(e2, indices_with_counts(&[15]));
    search.record_trial(e3, indices_with_counts(&[12]));
    assert_eq!(search.pending_request(), None);
    let outcome = search.into_outcome();
    assert!(!outcome.met_budget);
    assert_eq!(outcome.point_count, 12);
    assert_eq!(outcome.iterations, 3);
}

#[test]
fn zero_iteration_cap_still_evaluates_once() {
    let e1 = 2.0f64.to_bits();
    let mut search = EpsilonSearch::begin(0, 0, 1.0f64.to_bits());
    search.record_trial(e1, indices_with_counts(&[2]));
    assert_eq!(search.pending_request(), None);
    let outcome = search.into_outcome();
    assert_eq!(outcome.iterations, 1);
    assert!(!outcome.met_budget);
}

#[test]
fn repeated_runs_on_equal_trials_agree() {
    let e1 = 2.0f64.to_bits();
    let mid = 1.0f64.to_bits();
    let mut first = EpsilonSearch::begin(10, 20, 1.0f64.to_bits());
    let mut second = EpsilonSearch::begin(10, 20, 1.0f64.to_bits());
    for search in [&mut first, &mut second] {
        search.record_trial(e1, indices_with_counts(&[8]));
        search.record_trial(mid, indices_with_counts(&[9]));
    }
    assert_eq!(first.best_indices, second.best_indices);
    assert_eq!(first.best_count, second.best_count);
    assert_eq!(first.min_eps_bits, second.min_eps_bits);
    assert_eq!(first.max_eps_bits, second.max_eps_bits);
    assert_eq!(first.pending_request(), second.pending_request());
}
