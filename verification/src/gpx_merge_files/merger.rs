//! Merging of GPX documents: the tracks, routes, or waypoints of one
//! document appended to another, in their original order.

use vstd::prelude::*;

use crate::gpx_model::{gpx_attributes, gpx_extend_routes, gpx_extend_tracks,
    gpx_extend_waypoints, gpx_routes, gpx_routes_vec, gpx_tracks, gpx_tracks_vec, gpx_waypoints,
    gpx_waypoints_vec};

verus! {

/// Appends the waypoints of `other` to `master`, leaving everything else
/// of `master` unchanged.
pub fn merge_waypoints(master: &mut gpx::Gpx, other: &gpx::Gpx)
    ensures
        gpx_waypoints(*final(master)) == gpx_waypoints(*old(master)) + gpx_waypoints(*other),
        gpx_tracks(*final(master)) == gpx_tracks(*old(master)),
        gpx_routes(*final(master)) == gpx_routes(*old(master)),
        gpx_attributes(*final(master)) == gpx_attributes(*old(master)),
{
    let waypoints = gpx_waypoints_vec(other);
    gpx_extend_waypoints(master, waypoints);
}

/// Appends the tracks of `other` to `master`, leaving everything else of
/// `master` unchanged.
pub fn merge_tracks(master: &mut gpx::Gpx, other: &gpx::Gpx)
    ensures
        gpx_tracks(*final(master)) == gpx_tracks(*old(master)) + gpx_tracks(*other),
        gpx_waypoints(*final(master)) == gpx_waypoints(*old(master)),
        gpx_routes(*final(master)) == gpx_routes(*old(master)),
        gpx_attributes(*final(master)) == gpx_attributes(*old(master)),
{
    let tracks = gpx_tracks_vec(other);
    gpx_extend_tracks(master, tracks);
}

/// Appends the routes of `other` to `master`, leaving everything else of
/// `master` unchanged.
pub fn merge_routes(master: &mut gpx::Gpx, other: &gpx::Gpx)
    ensures
        gpx_routes(*final(master)) == gpx_routes(*old(master)) + gpx_routes(*other),
        gpx_tracks(*final(master)) == gpx_tracks(*old(master)),
        gpx_waypoints(*final(master)) == gpx_waypoints(*old(master)),
        gpx_attributes(*final(master)) == gpx_attributes(*old(master)),
{
    let routes = gpx_routes_vec(other);
    gpx_extend_routes(master, routes);
}

} // verus!
