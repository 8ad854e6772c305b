//! End-to-end tests of the track reduction drivers with the real
//! simplification primitives of the geo crate.

use std::cell::Cell;

use geo::{LineString, Point, SimplifyIdx, SimplifyVwIdx};
use gpx_tools::epsilon_search::TrialTolerance;
use gpx_tools::gpx_reduce_points::simplifier::{simplify_all_tracks_in_gpx, simplify_track,
    run_epsilon_search, SimplificationMethod, SolverConfig};
use gpx_tools::simplifier as fixed_start;

fn waypoint(x: f64, y: f64) -> gpx::Waypoint {
    gpx::Waypoint::new(Point::new(x, y))
}

fn segment_of(points: Vec<(f64, f64)>) -> gpx::TrackSegment {
    gpx::TrackSegment {
        points: points.into_iter().map(|(x, y)| waypoint(x, y)).collect(),
    }
}

fn track_of(segments: Vec<gpx::TrackSegment>) -> gpx::Track {
    gpx::Track {
        name: Some("test".to_string()),
        segments,
        ..Default::default()
    }
}

/// A zigzag polyline with `n` points spaced `step` apart.
fn zigzag(n: usize, step: f64) -> Vec<(f64, f64)> {
    (0..n)
        .map(|i| (i as f64 * step, if i % 2 == 0 { 0.0 } else { step }))
        .collect()
}

fn line_of(segment: &gpx::TrackSegment) -> LineString {
    let points: Vec<Point> = segment.points.iter().map(|w| w.point()).collect();
    LineString::from(points)
}

fn rdp_evaluate(track: &gpx::Track, eps_bits: u64) -> Vec<Vec<usize>> {
    let eps = f64::from_bits(eps_bits);
    track
        .segments
        .iter()
        .map(|seg| line_of(seg).simplify_idx(eps))
        .collect()
}

fn vw_evaluate(track: &gpx::Track, eps_bits: u64) -> Vec<Vec<usize>> {
    let eps = f64::from_bits(eps_bits);
    track
        .segments
        .iter()
        .map(|seg| line_of(seg).simplify_vw_idx(eps))
        .collect()
}

fn tolerance_of(request: TrialTolerance) -> u64 {
    match request {
        TrialTolerance::DoubleOf(bits) => (f64::from_bits(bits) * 2.0).to_bits(),
        TrialTolerance::MidpointOf(lo, hi) => {
            ((f64::from_bits(hi) + f64::from_bits(lo)) / 2.0).to_bits()
        }
    }
}

fn config(max_points: u32, max_iterations: u32, initial_epsilon: f64) -> SolverConfig {
    SolverConfig {
        max_points,
        max_iterations,
        method: SimplificationMethod::RamerDouglasPeucker,
        initial_epsilon_bits: initial_epsilon.to_bits(),
    }
}

fn total_points(track: &gpx::Track) -> usize {
    track.segments.iter().map(|s| s.points.len()).sum()
}

#[test]
fn thousand_point_segment_reduces_within_twenty_evaluations() {
    let points: Vec<(f64, f64)> = (0..1000).map(|i| (i as f64 * 0.01, 0.0)).collect();
    let first = points[0];
    let last = points[999];
    let track = track_of(vec![segment_of(points)]);
    let cfg = config(100, 20, 0.001);

    let outcome = run_epsilon_search(&track, &cfg, &rdp_evaluate, &tolerance_of);
    assert!(outcome.iterations <= 20);

    let reduced = simplify_track(&track, &cfg, &rdp_evaluate, &tolerance_of);
    let count = total_points(&reduced);
    assert!(count <= 100);
    assert!(count > 0);
    let out_points = &reduced.segments[0].points;
    assert_eq!(out_points.first().unwrap().point(), Point::new(first.0, first.1));
    assert_eq!(out_points.last().unwrap().point(), Point::new(last.0, last.1));
}

#[test]
fn track_already_within_budget_is_returned_unchanged() {
    let track = track_of(vec![segment_of(zigzag(50, 1.0))]);
    let cfg = config(100, 20, 0.001);
    let invocations = Cell::new(0u32);
    let counting_evaluate = |t: &gpx::Track, eps_bits: u64| {
        invocations.set(invocations.get() + 1);
        rdp_evaluate(t, eps_bits)
    };
    let reduced = simplify_track(&track, &cfg, &counting_evaluate, &tolerance_of);
    assert_eq!(reduced, track);
    assert_eq!(invocations.get(), 0);
}

#[test]
fn zero_budget_spends_whole_iteration_cap_and_keeps_endpoints() {
    let track = track_of(vec![segment_of(zigzag(10, 1.0))]);
    let cfg = config(0, 7, 0.001);
    let outcome = run_epsilon_search(&track, &cfg, &rdp_evaluate, &tolerance_of);
    assert_eq!(outcome.iterations, 7);
    assert!(!outcome.met_budget);
    assert!(outcome.point_count >= 2);
    let reduced = simplify_track(&track, &cfg, &rdp_evaluate, &tolerance_of);
    let out_points = &reduced.segments[0].points;
    assert!(out_points.len() >= 2);
    assert_eq!(out_points.first().unwrap().point(), Point::new(0.0, 0.0));
    assert_eq!(out_points.last().unwrap().point(), Point::new(9.0, 1.0));
}

#[test]
fn winning_indices_are_strictly_increasing_and_in_bounds() {
    let track = track_of(vec![segment_of(zigzag(120, 1.0)), segment_of(zigzag(80, 2.0))]);
    let cfg = config(60, 20, 0.001);
    let outcome = run_epsilon_search(&track, &cfg, &rdp_evaluate, &tolerance_of);
    assert_eq!(outcome.best_indices.len(), track.segments.len());
    for (seg, indices) in track.segments.iter().zip(outcome.best_indices.iter()) {
        let n = seg.points.len();
        assert!(!indices.is_empty());
        assert_eq!(indices[0], 0);
        assert_eq!(*indices.last().unwrap(), n - 1);
        for pair in indices.windows(2) {
            assert!(pair[0] < pair[1]);
        }
        assert!(indices.iter().all(|&i| i < n));
    }
}

#[test]
fn achievable_budget_is_met() {
    let track = track_of(vec![segment_of(zigzag(10, 1.0))]);
    let cfg = config(5, 20, 0.001);
    let outcome = run_epsilon_search(&track, &cfg, &rdp_evaluate, &tolerance_of);
    assert!(outcome.met_budget);
    assert!(outcome.point_count <= 5);
}

#[test]
fn repeated_reduction_runs_are_identical() {
    let make_gpx = || gpx::Gpx {
        version: gpx::GpxVersion::Gpx11,
        tracks: vec![
            track_of(vec![segment_of(zigzag(200, 0.5))]),
            track_of(vec![segment_of(zigzag(30, 1.0)), segment_of(zigzag(60, 2.0))]),
        ],
        ..Default::default()
    };
    let cfg = config(40, 15, 0.001);
    let mut first = make_gpx();
    let mut second = make_gpx();
    simplify_all_tracks_in_gpx(&mut first, &cfg, &rdp_evaluate, &tolerance_of);
    simplify_all_tracks_in_gpx(&mut second, &cfg, &rdp_evaluate, &tolerance_of);
    assert_eq!(first, second);
}

#[test]
fn gpx_level_reduction_keeps_document_fields_and_small_tracks() {
    let mut doc = gpx::Gpx {
        version: gpx::GpxVersion::Gpx11,
        creator: Some("someone".to_string()),
        tracks: vec![
            track_of(vec![segment_of(zigzag(8, 1.0))]),
            track_of(vec![segment_of(zigzag(500, 0.25))]),
        ],
        ..Default::default()
    };
    let small = doc.tracks[0].clone();
    let cfg = config(50, 20, 0.001);
    simplify_all_tracks_in_gpx(&mut doc, &cfg, &rdp_evaluate, &tolerance_of);
    assert_eq!(doc.creator.as_deref(), Some("someone"));
    assert_eq!(doc.tracks.len(), 2);
    assert_eq!(doc.tracks[0], small);
    assert!(total_points(&doc.tracks[1]) <= 50);
    assert_eq!(doc.tracks[1].name.as_deref(), Some("test"));
}

#[test]
fn visvalingam_reduction_keeps_endpoints() {
    let track = track_of(vec![segment_of(zigzag(300, 1.0))]);
    let cfg = SolverConfig {
        max_points: 50,
        max_iterations: 20,
        method: SimplificationMethod::VisvalingamWhyatt,
        initial_epsilon_bits: 0.0001f64.to_bits(),
    };
    let reduced = simplify_track(&track, &cfg, &vw_evaluate, &tolerance_of);
    let count = total_points(&reduced);
    assert!(count <= 50);
    assert!(count >= 2);
    let out_points = &reduced.segments[0].points;
    assert_eq!(out_points.first().unwrap().point(), Point::new(0.0, 0.0));
    assert_eq!(out_points.last().unwrap().point(), Point::new(299.0, 1.0));
}

#[test]
fn fixed_start_reduction_meets_an_achievable_budget() {
    let doc = gpx::Gpx {
        version: gpx::GpxVersion::Gpx11,
        tracks: vec![track_of(vec![segment_of(zigzag(400, 0.001))])],
        ..Default::default()
    };
    let reduced = fixed_start::simplify_all_tracks_in_gpx(
        doc,
        100,
        20,
        &rdp_evaluate,
        &tolerance_of,
    );
    assert_eq!(reduced.tracks.len(), 1);
    let out_points = &reduced.tracks[0].segments[0].points;
    assert!(out_points.len() >= 2);
    assert!(out_points.len() <= 100);
    assert_eq!(out_points.first().unwrap().point(), Point::new(0.0, 0.0));
}

#[test]
fn fixed_start_reduction_keeps_small_tracks_unchanged() {
    let mut doc = gpx::Gpx {
        version: gpx::GpxVersion::Gpx11,
        tracks: vec![track_of(vec![segment_of(zigzag(5, 1.0))])],
        ..Default::default()
    };
    let original = doc.tracks[0].clone();
    fixed_start::simplify_all_tracks_in_gpx_mut(
        &mut doc,
        100,
        20,
        &rdp_evaluate,
        &tolerance_of,
    );
    assert_eq!(doc.tracks[0], original);
}

#[test]
fn fixed_start_reduction_keeps_the_best_candidate_within_budget() {
    let track = track_of(vec![segment_of(zigzag(600, 0.0005))]);
    let reduced = fixed_start::simplify_track(&track, 64, 20, &rdp_evaluate, &tolerance_of);
    let count = total_points(&reduced);
    assert!(count <= 64);
    assert!(count >= 2);
}
