//! Trusted view of the `gpx` crate's data types.
//!
//! The GPX document types (`Gpx`, `Track`, `TrackSegment`, `Waypoint`,
//! `Route`) are declared here so that verified code can hold and move
//! their values.  The values themselves stay opaque; the contracts speak
//! of them through abstract projections:
//!
//! * the ordered contents of each collection-like field (`gpx_tracks`,
//!   `gpx_waypoints`, `gpx_routes`, `track_segments`, `seg_points`),
//! * a track's name (`track_name`), and
//! * the remaining fields of a document or track (`gpx_attributes`,
//!   `track_attributes`), modelled as "the same value with those fields
//!   emptied", which lets contracts state that everything apart from them
//!   is carried through unchanged.

use vstd::prelude::*;

use crate::util::option_string_view;

verus! {

#[verifier::external_type_specification]
#[verifier::external_body]
pub struct ExGpx(gpx::Gpx);

#[verifier::external_type_specification]
#[verifier::external_body]
pub struct ExTrack(gpx::Track);

#[verifier::external_type_specification]
#[verifier::external_body]
pub struct ExTrackSegment(gpx::TrackSegment);

#[verifier::external_type_specification]
#[verifier::external_body]
pub struct ExWaypoint(gpx::Waypoint);

#[verifier::external_type_specification]
#[verifier::external_body]
pub struct ExRoute(gpx::Route);

/// The ordered points held by a track segment (`TrackSegment::points`).
pub uninterp spec fn seg_points(s: gpx::TrackSegment) -> Seq<gpx::Waypoint>;

/// The ordered segments held by a track (`Track::segments`).
pub uninterp spec fn track_segments(t: gpx::Track) -> Seq<gpx::TrackSegment>;

/// A track's non-geometric fields other than its name (description,
/// links, source, ...): the same track with its segment list emptied and
/// its name cleared.
pub uninterp spec fn track_attributes(t: gpx::Track) -> gpx::Track;

/// A track's name (`Track::name`), as its character view.
pub uninterp spec fn track_name(t: gpx::Track) -> Option<Seq<char>>;

/// Whether every field of a track other than its name and its segments
/// holds its `Track::default` value (no comment, description, source,
/// links, type, or number).
pub uninterp spec fn track_default_attributes(t: gpx::Track) -> bool;

/// The ordered tracks held by a GPX document (`Gpx::tracks`).
pub uninterp spec fn gpx_tracks(g: gpx::Gpx) -> Seq<gpx::Track>;

/// The ordered waypoints held by a GPX document (`Gpx::waypoints`).
pub uninterp spec fn gpx_waypoints(g: gpx::Gpx) -> Seq<gpx::Waypoint>;

/// The ordered routes held by a GPX document (`Gpx::routes`).
pub uninterp spec fn gpx_routes(g: gpx::Gpx) -> Seq<gpx::Route>;

/// The ordered points held by a route (`Route::points`).
pub uninterp spec fn route_points(r: gpx::Route) -> Seq<gpx::Waypoint>;

/// A route's name (`Route::name`), as its character view.
pub uninterp spec fn route_name(r: gpx::Route) -> Option<Seq<char>>;

/// Whether a track's comment, description, source, links, type, and
/// number fields hold the same values as the route's fields of the same
/// names.
pub uninterp spec fn track_carries_route_attributes(t: gpx::Track, r: gpx::Route) -> bool;

/// A GPX document's fields other than its feature lists (version,
/// creator, metadata): the same document with its track, waypoint, and
/// route lists emptied.
pub uninterp spec fn gpx_attributes(g: gpx::Gpx) -> gpx::Gpx;

/// Relies on the derived `Clone` of `gpx::Waypoint`: a deep copy of plain
/// data, equal to the original.
pub assume_specification[ <gpx::Waypoint as Clone>::clone ](w: &gpx::Waypoint) -> (r:
    gpx::Waypoint)
    ensures
        r == *w,
;

/// Relies on the derived `Clone` of `gpx::TrackSegment`: a deep copy of
/// plain data, equal to the original.
pub assume_specification[ <gpx::TrackSegment as Clone>::clone ](s: &gpx::TrackSegment) -> (r:
    gpx::TrackSegment)
    ensures
        r == *s,
;

/// Relies on the derived `Clone` of `gpx::Track`: a deep copy of plain
/// data, equal to the original.
pub assume_specification[ <gpx::Track as Clone>::clone ](t: &gpx::Track) -> (r: gpx::Track)
    ensures
        r == *t,
;

/// Relies on the derived `Clone` of `gpx::Gpx`: a deep copy of plain data,
/// equal to the original.
pub assume_specification[ <gpx::Gpx as Clone>::clone ](g: &gpx::Gpx) -> (r: gpx::Gpx)
    ensures
        r == *g,
;

/// Relies on `Vec::len` applied to `TrackSegment::points`.
#[verifier::external_body]
pub fn seg_point_count(s: &gpx::TrackSegment) -> (n: usize)
    ensures
        n == seg_points(*s).len(),
{
    s.points.len()
}

/// Relies on `Vec` indexing applied to `TrackSegment::points`.
#[verifier::external_body]
pub fn seg_point_at(s: &gpx::TrackSegment, i: usize) -> (w: &gpx::Waypoint)
    requires
        i < seg_points(*s).len(),
    ensures
        *w == seg_points(*s)[i as int],
{
    &s.points[i]
}

/// Relies on the `gpx::TrackSegment` struct literal: builds a segment that
/// holds exactly the given points.
#[verifier::external_body]
pub fn seg_from_points(points: Vec<gpx::Waypoint>) -> (s: gpx::TrackSegment)
    ensures
        seg_points(s) == points@,
{
    gpx::TrackSegment { points }
}

/// Relies on `Vec::len` applied to `Track::segments`.
#[verifier::external_body]
pub fn track_segment_count(t: &gpx::Track) -> (n: usize)
    ensures
        n == track_segments(*t).len(),
{
    t.segments.len()
}

/// Relies on `Vec` indexing applied to `Track::segments`.
#[verifier::external_body]
pub fn track_segment_at(t: &gpx::Track, i: usize) -> (s: &gpx::TrackSegment)
    requires
        i < track_segments(*t).len(),
    ensures
        *s == track_segments(*t)[i as int],
{
    &t.segments[i]
}

/// Relies on the `gpx::Track` struct update literal: builds a track with
/// the given segments and every other field, the name included, copied
/// from `t`.
#[verifier::external_body]
pub fn track_with_segments(t: &gpx::Track, segments: Vec<gpx::TrackSegment>) -> (r: gpx::Track)
    ensures
        track_segments(r) == segments@,
        track_attributes(r) == track_attributes(*t),
        track_name(r) == track_name(*t),
        track_default_attributes(r) == track_default_attributes(*t),
{
    gpx::Track { segments, ..t.clone() }
}

/// Relies on `Option::clone` applied to `Track::name`.
#[verifier::external_body]
pub fn track_name_clone(t: &gpx::Track) -> (r: Option<String>)
    ensures
        option_string_view(r) == track_name(*t),
{
    t.name.clone()
}

/// Relies on assignment to `Track::name`: replaces the name and leaves
/// the segments and the other attributes unchanged.
#[verifier::external_body]
pub fn track_set_name(t: &mut gpx::Track, name: String)
    ensures
        track_name(*final(t)) == Option::Some(name@),
        track_segments(*final(t)) == track_segments(*old(t)),
        track_attributes(*final(t)) == track_attributes(*old(t)),
{
    t.name = Some(name);
}

/// Relies on the `gpx::Track` struct literal and `Track::default`: builds
/// a track with the given name, no segments, and default values
/// everywhere else.
#[verifier::external_body]
pub fn track_new_with_name(name: String) -> (r: gpx::Track)
    ensures
        track_name(r) == Option::Some(name@),
        track_segments(r) == Seq::<gpx::TrackSegment>::empty(),
        track_default_attributes(r),
{
    gpx::Track { name: Some(name), ..Default::default() }
}

/// Relies on `Vec::clone` applied to `TrackSegment::points`.
#[verifier::external_body]
pub fn seg_points_vec(s: &gpx::TrackSegment) -> (v: Vec<gpx::Waypoint>)
    ensures
        v@ == seg_points(*s),
{
    s.points.clone()
}

/// Relies on `Vec::clone` applied to `Track::segments`.
#[verifier::external_body]
pub fn track_segments_vec(t: &gpx::Track) -> (v: Vec<gpx::TrackSegment>)
    ensures
        v@ == track_segments(*t),
{
    t.segments.clone()
}

/// Relies on `std::mem::take` applied to `Gpx::tracks`: hands the track
/// list out and leaves an empty one behind.
#[verifier::external_body]
pub fn gpx_take_tracks(g: &mut gpx::Gpx) -> (tracks: Vec<gpx::Track>)
    ensures
        tracks@ == gpx_tracks(*old(g)),
        gpx_tracks(*final(g)) == Seq::<gpx::Track>::empty(),
        gpx_waypoints(*final(g)) == gpx_waypoints(*old(g)),
        gpx_routes(*final(g)) == gpx_routes(*old(g)),
        gpx_attributes(*final(g)) == gpx_attributes(*old(g)),
{
    std::mem::take(&mut g.tracks)
}

/// Relies on assignment to `Gpx::tracks`: replaces the track list and
/// leaves every other field unchanged.
#[verifier::external_body]
pub fn gpx_set_tracks(g: &mut gpx::Gpx, tracks: Vec<gpx::Track>)
    ensures
        gpx_tracks(*final(g)) == tracks@,
        gpx_waypoints(*final(g)) == gpx_waypoints(*old(g)),
        gpx_routes(*final(g)) == gpx_routes(*old(g)),
        gpx_attributes(*final(g)) == gpx_attributes(*old(g)),
{
    g.tracks = tracks;
}

/// Relies on `Vec::clone` applied to `Gpx::tracks`.
#[verifier::external_body]
pub fn gpx_tracks_vec(g: &gpx::Gpx) -> (v: Vec<gpx::Track>)
    ensures
        v@ == gpx_tracks(*g),
{
    g.tracks.clone()
}

/// Relies on `Vec::clone` applied to `Gpx::waypoints`.
#[verifier::external_body]
pub fn gpx_waypoints_vec(g: &gpx::Gpx) -> (v: Vec<gpx::Waypoint>)
    ensures
        v@ == gpx_waypoints(*g),
{
    g.waypoints.clone()
}

/// Relies on `Vec::clone` applied to `Gpx::routes`.
#[verifier::external_body]
pub fn gpx_routes_vec(g: &gpx::Gpx) -> (v: Vec<gpx::Route>)
    ensures
        v@ == gpx_routes(*g),
{
    g.routes.clone()
}

/// Relies on `Vec::extend` applied to `Gpx::tracks`: appends the given
/// tracks and leaves every other field unchanged.
#[verifier::external_body]
pub fn gpx_extend_tracks(g: &mut gpx::Gpx, tracks: Vec<gpx::Track>)
    ensures
        gpx_tracks(*final(g)) == gpx_tracks(*old(g)) + tracks@,
        gpx_waypoints(*final(g)) == gpx_waypoints(*old(g)),
        gpx_routes(*final(g)) == gpx_routes(*old(g)),
        gpx_attributes(*final(g)) == gpx_attributes(*old(g)),
{
    g.tracks.extend(tracks)
}

/// Relies on `Vec::extend` applied to `Gpx::waypoints`: appends the
/// given waypoints and leaves every other field unchanged.
#[verifier::external_body]
pub fn gpx_extend_waypoints(g: &mut gpx::Gpx, waypoints: Vec<gpx::Waypoint>)
    ensures
        gpx_waypoints(*final(g)) == gpx_waypoints(*old(g)) + waypoints@,
        gpx_tracks(*final(g)) == gpx_tracks(*old(g)),
        gpx_routes(*final(g)) == gpx_routes(*old(g)),
        gpx_attributes(*final(g)) == gpx_attributes(*old(g)),
{
    g.waypoints.extend(waypoints)
}

/// Relies on `Vec::extend` applied to `Gpx::routes`: appends the given
/// routes and leaves every other field unchanged.
#[verifier::external_body]
pub fn gpx_extend_routes(g: &mut gpx::Gpx, routes: Vec<gpx::Route>)
    ensures
        gpx_routes(*final(g)) == gpx_routes(*old(g)) + routes@,
        gpx_tracks(*final(g)) == gpx_tracks(*old(g)),
        gpx_waypoints(*final(g)) == gpx_waypoints(*old(g)),
        gpx_attributes(*final(g)) == gpx_attributes(*old(g)),
{
    g.routes.extend(routes)
}

} // verus!
