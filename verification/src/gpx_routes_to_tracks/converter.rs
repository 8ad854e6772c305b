//! Conversion of GPX routes into tracks: each route becomes a track with
//! a single segment holding the route's points, carrying the route's
//! name and descriptive attributes.

use vstd::prelude::*;

use crate::gpx_model::{gpx_attributes, gpx_extend_tracks, gpx_routes, gpx_routes_vec,
    gpx_tracks, gpx_waypoints, route_name, route_points, seg_points,
    track_carries_route_attributes, track_name, track_segments};

verus! {

/// `t` is the track form of route `r`: one segment holding exactly the
/// route's points, the route's name, and the route's descriptive
/// attributes carried over.
pub open spec fn converted_route_track(r: gpx::Route, t: gpx::Track) -> bool {
    &&& track_segments(t).len() == 1
    &&& seg_points(track_segments(t)[0]) == route_points(r)
    &&& track_name(t) == route_name(r)
    &&& track_carries_route_attributes(t, r)
}

/// Relies on the `gpx::Track` and `gpx::TrackSegment` struct literals:
/// builds a track with one segment holding the route's points, and the
/// route's name, comment, description, source, links, type, and number
/// copied over.
#[verifier::external_body]
pub fn convert_route_to_track(route: &gpx::Route) -> (t: gpx::Track)
    ensures
        track_segments(t).len() == 1,
        seg_points(track_segments(t)[0]) == route_points(*route),
        track_name(t) == route_name(*route),
        track_carries_route_attributes(t, *route),
{
    gpx::Track {
        name: route.name.clone(),
        comment: route.comment.clone(),
        description: route.description.clone(),
        source: route.source.clone(),
        links: route.links.clone(),
        type_: route.type_.clone(),
        number: route.number,
        segments: vec![gpx::TrackSegment { points: route.points.clone() }],
    }
}

/// Appends, for every route of the document, its track form behind the
/// existing tracks, in route order.  The routes themselves and every
/// other field of the document stay unchanged.
pub fn convert_all_routes_to_tracks(gpx_data: &mut gpx::Gpx)
    ensures
        gpx_attributes(*final(gpx_data)) == gpx_attributes(*old(gpx_data)),
        gpx_waypoints(*final(gpx_data)) == gpx_waypoints(*old(gpx_data)),
        gpx_routes(*final(gpx_data)) == gpx_routes(*old(gpx_data)),
        gpx_tracks(*final(gpx_data)).len() == gpx_tracks(*old(gpx_data)).len() + gpx_routes(
            *old(gpx_data),
        ).len(),
        forall|i: int|
            0 <= i < gpx_tracks(*old(gpx_data)).len() ==> #[trigger] gpx_tracks(
                *final(gpx_data),
            )[i] == gpx_tracks(*old(gpx_data))[i],
        forall|j: int|
            0 <= j < gpx_routes(*old(gpx_data)).len() ==> converted_route_track(
                gpx_routes(*old(gpx_data))[j],
                #[trigger] gpx_tracks(*final(gpx_data))[gpx_tracks(*old(gpx_data)).len() + j],
            ),
{
    let ghost orig_routes = gpx_routes(*old(gpx_data));
    let routes = gpx_routes_vec(&*gpx_data);
    let mut converted: Vec<gpx::Track> = Vec::new();
    let mut j: usize = 0;
    let n = routes.len();
    while j < n
        invariant
            n == routes@.len(),
            routes@ == orig_routes,
            0 <= j <= n,
            converted@.len() == j,
            forall|k: int|
                0 <= k < j ==> converted_route_track(orig_routes[k], #[trigger] converted@[k]),
        decreases n - j,
    {
        let t = convert_route_to_track(&routes[j]);
        converted.push(t);
        j = j + 1;
    }
    gpx_extend_tracks(gpx_data, converted);
}

} // verus!
