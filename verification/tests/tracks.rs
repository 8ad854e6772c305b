//! Tests of counting, segment assembly, track reversal, and track
//! merging on real GPX values.

use geo::Point;
use gpx_tools::assembly::{create_segment_from_indices, create_track_from_indices};
use gpx_tools::counting::{count_points_in_simplified_segment_indices, count_points_in_track};
use gpx_tools::gpx_merge_tracks::merger::merge_tracks;
use gpx_tools::gpx_reverse_tracks::reverser::{reverse_all_tracks, reverse_track, RenameStrategy};

fn named_waypoint(x: f64, y: f64, name: &str) -> gpx::Waypoint {
    let mut w = gpx::Waypoint::new(Point::new(x, y));
    w.name = Some(name.to_string());
    w.elevation = Some(x + y);
    w
}

fn plain_segment(coords: &[(f64, f64)]) -> gpx::TrackSegment {
    gpx::TrackSegment {
        points: coords
            .iter()
            .map(|&(x, y)| gpx::Waypoint::new(Point::new(x, y)))
            .collect(),
    }
}

#[test]
fn counting_track_points_sums_all_segments() {
    let track = gpx::Track {
        segments: vec![
            plain_segment(&[(0.0, 0.0), (1.0, 0.0)]),
            plain_segment(&[]),
            plain_segment(&[(2.0, 0.0), (3.0, 0.0), (4.0, 0.0)]),
        ],
        ..Default::default()
    };
    assert_eq!(count_points_in_track(&track), 5);
}

#[test]
fn counting_trial_indices_sums_all_lists() {
    let indices: Vec<Vec<usize>> = vec![vec![0, 3, 9], vec![], vec![0, 1]];
    assert_eq!(count_points_in_simplified_segment_indices(&indices), 5);
}

#[test]
fn selected_points_keep_their_attributes() {
    let segment = gpx::TrackSegment {
        points: vec![
            named_waypoint(0.0, 0.0, "start"),
            named_waypoint(1.0, 5.0, "middle"),
            named_waypoint(2.0, 0.0, "end"),
        ],
    };
    let reduced = create_segment_from_indices(&segment, &vec![0, 2]);
    assert_eq!(reduced.points.len(), 2);
    assert_eq!(reduced.points[0].name.as_deref(), Some("start"));
    assert_eq!(reduced.points[0].elevation, Some(0.0));
    assert_eq!(reduced.points[1].name.as_deref(), Some("end"));
    assert_eq!(reduced.points[1].elevation, Some(2.0));
}

#[test]
fn rebuilt_tracks_keep_their_name_and_segment_order() {
    let track = gpx::Track {
        name: Some("hike".to_string()),
        description: Some("a walk".to_string()),
        segments: vec![
            plain_segment(&[(0.0, 0.0), (1.0, 1.0), (2.0, 0.0)]),
            plain_segment(&[(5.0, 0.0), (6.0, 1.0)]),
        ],
        ..Default::default()
    };
    let rebuilt = create_track_from_indices(&track, &vec![vec![0, 2], vec![0, 1]]);
    assert_eq!(rebuilt.name.as_deref(), Some("hike"));
    assert_eq!(rebuilt.description.as_deref(), Some("a walk"));
    assert_eq!(rebuilt.segments.len(), 2);
    assert_eq!(rebuilt.segments[0].points[0].point(), Point::new(0.0, 0.0));
    assert_eq!(rebuilt.segments[0].points[1].point(), Point::new(2.0, 0.0));
    assert_eq!(rebuilt.segments[1].points.len(), 2);
}

#[test]
fn reversing_a_track_reverses_segments_and_points() {
    let mut track = gpx::Track {
        name: Some("out".to_string()),
        segments: vec![
            plain_segment(&[(0.0, 0.0), (1.0, 0.0)]),
            plain_segment(&[(2.0, 0.0), (3.0, 0.0), (4.0, 0.0)]),
        ],
        ..Default::default()
    };
    reverse_track(&mut track, RenameStrategy::No);
    assert_eq!(track.name.as_deref(), Some("out"));
    assert_eq!(track.segments.len(), 2);
    assert_eq!(track.segments[0].points[0].point(), Point::new(4.0, 0.0));
    assert_eq!(track.segments[0].points[2].point(), Point::new(2.0, 0.0));
    assert_eq!(track.segments[1].points[0].point(), Point::new(1.0, 0.0));
    assert_eq!(track.segments[1].points[1].point(), Point::new(0.0, 0.0));
}

#[test]
fn reversed_tracks_are_renamed_per_strategy() {
    let cases = [
        (RenameStrategy::Prefix, Some("walk"), "Rev walk"),
        (RenameStrategy::Prefix, None, "Rev"),
        (RenameStrategy::LongPrefix, Some("walk"), "Reversed walk"),
        (RenameStrategy::LongPrefix, None, "Reversed"),
        (RenameStrategy::Suffix, Some("walk"), "walk Rev"),
        (RenameStrategy::Suffix, None, "Rev"),
        (RenameStrategy::LongSuffix, Some("walk"), "walk Reversed"),
        (RenameStrategy::LongSuffix, None, "Reversed"),
    ];
    for (strategy, name, expected) in cases {
        let mut track = gpx::Track {
            name: name.map(|n| n.to_string()),
            segments: vec![plain_segment(&[(0.0, 0.0), (1.0, 0.0)])],
            ..Default::default()
        };
        reverse_track(&mut track, strategy);
        assert_eq!(track.name.as_deref(), Some(expected));
    }
}

#[test]
fn unrenamed_tracks_keep_a_missing_name() {
    let mut track = gpx::Track {
        name: None,
        segments: vec![plain_segment(&[(0.0, 0.0), (1.0, 0.0)])],
        ..Default::default()
    };
    reverse_track(&mut track, RenameStrategy::No);
    assert_eq!(track.name, None);
}

#[test]
fn reversing_all_tracks_can_keep_the_originals() {
    let track_a = gpx::Track {
        name: Some("a".to_string()),
        segments: vec![plain_segment(&[(0.0, 0.0), (1.0, 0.0)])],
        ..Default::default()
    };
    let track_b = gpx::Track {
        name: Some("b".to_string()),
        segments: vec![plain_segment(&[(2.0, 0.0), (3.0, 0.0)])],
        ..Default::default()
    };
    let mut doc = gpx::Gpx {
        version: gpx::GpxVersion::Gpx11,
        creator: Some("someone".to_string()),
        tracks: vec![track_a.clone(), track_b.clone()],
        ..Default::default()
    };
    reverse_all_tracks(&mut doc, RenameStrategy::Prefix, true);
    assert_eq!(doc.creator.as_deref(), Some("someone"));
    assert_eq!(doc.tracks.len(), 4);
    assert_eq!(doc.tracks[0].name.as_deref(), Some("Rev a"));
    assert_eq!(doc.tracks[0].segments[0].points[0].point(), Point::new(1.0, 0.0));
    assert_eq!(doc.tracks[1].name.as_deref(), Some("Rev b"));
    assert_eq!(doc.tracks[2], track_a);
    assert_eq!(doc.tracks[3], track_b);
}

#[test]
fn routes_become_single_segment_tracks_behind_existing_ones() {
    let mut doc = gpx::Gpx {
        version: gpx::GpxVersion::Gpx11,
        tracks: vec![gpx::Track {
            name: Some("existing".to_string()),
            ..Default::default()
        }],
        routes: vec![
            gpx::Route {
                name: Some("commute".to_string()),
                description: Some("to work".to_string()),
                points: vec![
                    gpx::Waypoint::new(Point::new(0.0, 0.0)),
                    gpx::Waypoint::new(Point::new(1.0, 2.0)),
                ],
                ..Default::default()
            },
            gpx::Route {
                name: None,
                points: vec![gpx::Waypoint::new(Point::new(5.0, 5.0))],
                ..Default::default()
            },
        ],
        ..Default::default()
    };
    gpx_tools::gpx_routes_to_tracks::converter::convert_all_routes_to_tracks(&mut doc);
    assert_eq!(doc.routes.len(), 2);
    assert_eq!(doc.tracks.len(), 3);
    assert_eq!(doc.tracks[0].name.as_deref(), Some("existing"));
    let first = &doc.tracks[1];
    assert_eq!(first.name.as_deref(), Some("commute"));
    assert_eq!(first.description.as_deref(), Some("to work"));
    assert_eq!(first.segments.len(), 1);
    assert_eq!(first.segments[0].points.len(), 2);
    assert_eq!(first.segments[0].points[1].point(), Point::new(1.0, 2.0));
    let second = &doc.tracks[2];
    assert_eq!(second.name, None);
    assert_eq!(second.segments[0].points[0].point(), Point::new(5.0, 5.0));
}

#[test]
fn merging_documents_appends_each_feature_kind() {
    let mut master = gpx::Gpx {
        version: gpx::GpxVersion::Gpx11,
        creator: Some("someone".to_string()),
        waypoints: vec![named_waypoint(0.0, 0.0, "home")],
        tracks: vec![gpx::Track {
            name: Some("one".to_string()),
            ..Default::default()
        }],
        ..Default::default()
    };
    let other = gpx::Gpx {
        version: gpx::GpxVersion::Gpx11,
        waypoints: vec![named_waypoint(1.0, 1.0, "away")],
        tracks: vec![gpx::Track {
            name: Some("two".to_string()),
            ..Default::default()
        }],
        routes: vec![gpx::Route {
            name: Some("r".to_string()),
            ..Default::default()
        }],
        ..Default::default()
    };
    gpx_tools::gpx_merge_files::merger::merge_tracks(&mut master, &other);
    gpx_tools::gpx_merge_files::merger::merge_routes(&mut master, &other);
    gpx_tools::gpx_merge_files::merger::merge_waypoints(&mut master, &other);
    assert_eq!(master.creator.as_deref(), Some("someone"));
    assert_eq!(master.tracks.len(), 2);
    assert_eq!(master.tracks[1].name.as_deref(), Some("two"));
    assert_eq!(master.routes.len(), 1);
    assert_eq!(master.waypoints.len(), 2);
    assert_eq!(master.waypoints[0].name.as_deref(), Some("home"));
    assert_eq!(master.waypoints[1].name.as_deref(), Some("away"));
}

#[test]
fn merging_tracks_concatenates_segments_in_order() {
    let mut doc = gpx::Gpx {
        version: gpx::GpxVersion::Gpx11,
        creator: Some("someone".to_string()),
        tracks: vec![
            gpx::Track {
                name: Some("one".to_string()),
                segments: vec![plain_segment(&[(0.0, 0.0), (1.0, 0.0)])],
                ..Default::default()
            },
            gpx::Track {
                name: Some("two".to_string()),
                description: Some("second leg".to_string()),
                segments: vec![
                    plain_segment(&[(2.0, 0.0)]),
                    plain_segment(&[(3.0, 0.0), (4.0, 0.0)]),
                ],
                ..Default::default()
            },
        ],
        ..Default::default()
    };
    merge_tracks(&mut doc, "whole trip".to_string());
    assert_eq!(doc.creator.as_deref(), Some("someone"));
    assert_eq!(doc.tracks.len(), 1);
    let merged = &doc.tracks[0];
    assert_eq!(merged.name.as_deref(), Some("whole trip"));
    assert_eq!(merged.comment, None);
    assert_eq!(merged.description, None);
    assert_eq!(merged.source, None);
    assert_eq!(merged.number, None);
    assert!(merged.links.is_empty());
    assert_eq!(merged.segments.len(), 3);
    assert_eq!(merged.segments[0].points[0].point(), Point::new(0.0, 0.0));
    assert_eq!(merged.segments[1].points[0].point(), Point::new(2.0, 0.0));
    assert_eq!(merged.segments[2].points[1].point(), Point::new(4.0, 0.0));
}
