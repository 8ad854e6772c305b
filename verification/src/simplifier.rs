//! Track reduction with a fixed initial tolerance guess: the same
//! two-phase epsilon search as [`crate::gpx_reduce_points::simplifier`],
//! run from a built-in starting bracket instead of a caller-supplied one.
//! These entry points take the budget and the iteration cap as bare
//! parameters and need no solver configuration.

use vstd::prelude::*;

use crate::assembly::valid_trial_indices;
use crate::counting::track_point_total;
use crate::epsilon_search::TrialTolerance;
use crate::gpx_model::{gpx_attributes, gpx_routes, gpx_set_tracks, gpx_take_tracks, gpx_tracks,
    gpx_waypoints};
use crate::gpx_reduce_points::simplifier::{primitive_reduction, searched_reduction,
    simplify_track_from, track_reduction_result};

verus! {

/// Which polyline simplification criterion the collaborator applies:
/// maximum perpendicular distance (Ramer-Douglas-Peucker) or minimum
/// effective area (Visvalingam-Whyatt).
#[derive(Clone, Copy, Debug, PartialEq, Eq, Structural)]
pub enum SimplificationMethod {
    RamerDouglasPeucker,
    VisvalingamWhyatt,
}

/// IEEE 754 bit pattern of the fixed initial tolerance guess (five
/// thousandths), the intended midpoint of the fixed starting bracket
/// whose upper bound is one hundredth.
pub const DEFAULT_INITIAL_EPSILON_BITS: u64 = 0x3F74_7AE1_47AE_147B;

/// Reduces one track towards the point budget, searching from the fixed
/// initial tolerance.  A track already within the budget is returned
/// unchanged without consulting the primitive; any other track is
/// replaced by the winning candidate of one finished epsilon search.
pub fn simplify_track<F: Fn(&gpx::Track, u64) -> Vec<Vec<usize>>, G: Fn(TrialTolerance) -> u64>(
    track: &gpx::Track,
    max_points: u32,
    max_iterations: u32,
    evaluate: &F,
    tolerance_of: &G,
) -> (r: gpx::Track)
    requires
        forall|eps: u64| #[trigger] call_requires(*evaluate, (track, eps)),
        forall|req: TrialTolerance| #[trigger] call_requires(*tolerance_of, (req,)),
        forall|eps: u64, v: Vec<Vec<usize>>|
            call_ensures(*evaluate, (track, eps), v) ==> valid_trial_indices(v.deep_view(), *track),
    ensures
        track_reduction_result(*track, r, max_points),
        track_point_total(*track) > max_points as int ==> searched_reduction(
            *track,
            r,
            max_points,
            max_iterations,
            DEFAULT_INITIAL_EPSILON_BITS,
        ),
        track_point_total(*track) > max_points as int ==> primitive_reduction(
            *evaluate,
            *track,
            r,
        ),
{
    simplify_track_from(
        track,
        max_points,
        max_iterations,
        DEFAULT_INITIAL_EPSILON_BITS,
        evaluate,
        tolerance_of,
    )
}

/// Reduces every track of a GPX document in place with the
/// fixed-tolerance search, leaving tracks already within budget untouched
/// and every non-track field of the document unchanged.
pub fn simplify_all_tracks_in_gpx_mut<F: Fn(&gpx::Track, u64) -> Vec<Vec<usize>>, G: Fn(
    TrialTolerance,
) -> u64>(
    gpx_data: &mut gpx::Gpx,
    max_points: u32,
    max_iterations: u32,
    evaluate: &F,
    tolerance_of: &G,
)
    requires
        forall|t: &gpx::Track, eps: u64| #[trigger] call_requires(*evaluate, (t, eps)),
        forall|req: TrialTolerance| #[trigger] call_requires(*tolerance_of, (req,)),
        forall|t: &gpx::Track, eps: u64, v: Vec<Vec<usize>>|
            call_ensures(*evaluate, (t, eps), v) ==> valid_trial_indices(v.deep_view(), *t),
    ensures
        gpx_attributes(*final(gpx_data)) == gpx_attributes(*old(gpx_data)),
        gpx_waypoints(*final(gpx_data)) == gpx_waypoints(*old(gpx_data)),
        gpx_routes(*final(gpx_data)) == gpx_routes(*old(gpx_data)),
        gpx_tracks(*final(gpx_data)).len() == gpx_tracks(*old(gpx_data)).len(),
        forall|i: int|
            0 <= i < gpx_tracks(*old(gpx_data)).len() ==> track_reduction_result(
                gpx_tracks(*old(gpx_data))[i],
                #[trigger] gpx_tracks(*final(gpx_data))[i],
                max_points,
            ),
        forall|i: int|
            0 <= i < gpx_tracks(*old(gpx_data)).len() && track_point_total(
                gpx_tracks(*old(gpx_data))[i],
            ) > max_points as int ==> searched_reduction(
                gpx_tracks(*old(gpx_data))[i],
                #[trigger] gpx_tracks(*final(gpx_data))[i],
                max_points,
                max_iterations,
                DEFAULT_INITIAL_EPSILON_BITS,
            ),
        forall|i: int|
            0 <= i < gpx_tracks(*old(gpx_data)).len() && track_point_total(
                gpx_tracks(*old(gpx_data))[i],
            ) > max_points as int ==> primitive_reduction(
                *evaluate,
                gpx_tracks(*old(gpx_data))[i],
                #[trigger] gpx_tracks(*final(gpx_data))[i],
            ),
{
    let ghost orig_tracks = gpx_tracks(*old(gpx_data));
    let tracks = gpx_take_tracks(gpx_data);
    let mut reduced: Vec<gpx::Track> = Vec::new();
    let mut i: usize = 0;
    let n = tracks.len();
    while i < n
        invariant
            n == tracks@.len(),
            tracks@ == orig_tracks,
            0 <= i <= n,
            reduced@.len() == i,
            forall|t: &gpx::Track, eps: u64| #[trigger] call_requires(*evaluate, (t, eps)),
            forall|req: TrialTolerance| #[trigger] call_requires(*tolerance_of, (req,)),
            forall|t: &gpx::Track, eps: u64, v: Vec<Vec<usize>>|
                call_ensures(*evaluate, (t, eps), v) ==> valid_trial_indices(v.deep_view(), *t),
            forall|j: int|
                0 <= j < i ==> track_reduction_result(
                    orig_tracks[j],
                    #[trigger] reduced@[j],
                    max_points,
                ),
            forall|j: int|
                0 <= j < i && track_point_total(orig_tracks[j]) > max_points as int
                    ==> searched_reduction(
                    orig_tracks[j],
                    #[trigger] reduced@[j],
                    max_points,
                    max_iterations,
                    DEFAULT_INITIAL_EPSILON_BITS,
                ),
            forall|j: int|
                0 <= j < i && track_point_total(orig_tracks[j]) > max_points as int
                    ==> primitive_reduction(*evaluate, orig_tracks[j], #[trigger] reduced@[j]),
        decreases n - i,
    {
        let current = &tracks[i];
        let t = simplify_track(current, max_points, max_iterations, evaluate, tolerance_of);
        reduced.push(t);
        i = i + 1;
    }
    gpx_set_tracks(gpx_data, reduced);
}

/// As [`simplify_all_tracks_in_gpx_mut`], but takes the document by value
/// and returns the reduced document.
pub fn simplify_all_tracks_in_gpx<F: Fn(&gpx::Track, u64) -> Vec<Vec<usize>>, G: Fn(
    TrialTolerance,
) -> u64>(
    gpx_data: gpx::Gpx,
    max_points: u32,
    max_iterations: u32,
    evaluate: &F,
    tolerance_of: &G,
) -> (r: gpx::Gpx)
    requires
        forall|t: &gpx::Track, eps: u64| #[trigger] call_requires(*evaluate, (t, eps)),
        forall|req: TrialTolerance| #[trigger] call_requires(*tolerance_of, (req,)),
        forall|t: &gpx::Track, eps: u64, v: Vec<Vec<usize>>|
            call_ensures(*evaluate, (t, eps), v) ==> valid_trial_indices(v.deep_view(), *t),
    ensures
        gpx_attributes(r) == gpx_attributes(gpx_data),
        gpx_waypoints(r) == gpx_waypoints(gpx_data),
        gpx_routes(r) == gpx_routes(gpx_data),
        gpx_tracks(r).len() == gpx_tracks(gpx_data).len(),
        forall|i: int|
            0 <= i < gpx_tracks(gpx_data).len() ==> track_reduction_result(
                gpx_tracks(gpx_data)[i],
                #[trigger] gpx_tracks(r)[i],
                max_points,
            ),
        forall|i: int|
            0 <= i < gpx_tracks(gpx_data).len() && track_point_total(gpx_tracks(gpx_data)[i])
                > max_points as int ==> searched_reduction(
                gpx_tracks(gpx_data)[i],
                #[trigger] gpx_tracks(r)[i],
                max_points,
                max_iterations,
                DEFAULT_INITIAL_EPSILON_BITS,
            ),
        forall|i: int|
            0 <= i < gpx_tracks(gpx_data).len() && track_point_total(gpx_tracks(gpx_data)[i])
                > max_points as int ==> primitive_reduction(
                *evaluate,
                gpx_tracks(gpx_data)[i],
                #[trigger] gpx_tracks(r)[i],
            ),
{
    let mut result = gpx_data;
    simplify_all_tracks_in_gpx_mut(&mut result, max_points, max_iterations, evaluate, tolerance_of);
    result
}

} // verus!
