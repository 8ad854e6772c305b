//! Reconstruction of reduced segments and tracks from retained indices,
//! and the well-formedness conditions on those indices.
//!
//! A simplification primitive hands back, for each segment, the ascending
//! indices of the points that survive.  `valid_segment_indices` states the
//! contract such an index list obeys (spec: ascending unique indices into
//! the points, containing the first and last index whenever the segment is
//! non-empty).  The functions here rebuild segments and tracks by selecting
//! the original point objects, so every non-geometric attribute of a kept
//! point travels with it unchanged.

use vstd::prelude::*;

use crate::gpx_model::{seg_from_points, seg_point_at, seg_point_count, seg_points,
    track_attributes, track_name, track_segment_at, track_segment_count, track_segments,
    track_with_segments};

verus! {

/// The points selected from `orig` by the index list `idx`, in order.
pub open spec fn selected_points(orig: Seq<gpx::Waypoint>, idx: Seq<usize>) -> Seq<gpx::Waypoint> {
    idx.map_values(|j: usize| orig[j as int])
}

/// Index lists are strictly increasing and in bounds for a segment of `n`
/// points.
pub open spec fn indices_in_order(idx: Seq<usize>, n: int) -> bool {
    &&& forall|a: int, b: int| 0 <= a < b < idx.len() ==> #[trigger] idx[a] < #[trigger] idx[b]
    &&& forall|a: int| 0 <= a < idx.len() ==> #[trigger] idx[a] < n
}

/// The contract of one segment's retained-index list, as the simplification
/// primitive promises it: strictly increasing indices into the original
/// points, empty for an empty segment, and containing the first and the
/// last index whenever the segment is non-empty.
pub open spec fn valid_segment_indices(idx: Seq<usize>, n: int) -> bool {
    &&& indices_in_order(idx, n)
    &&& n == 0 ==> idx.len() == 0
    &&& n >= 1 ==> idx.len() >= 1 && idx[0] == 0 && idx.last() == n - 1
}

/// The contract of one whole trial over a track: one retained-index list
/// per segment, each valid for its segment.
pub open spec fn valid_trial_indices(idx: Seq<Seq<usize>>, t: gpx::Track) -> bool {
    &&& idx.len() == track_segments(t).len()
    &&& forall|i: int|
        0 <= i < idx.len() ==> valid_segment_indices(
            #[trigger] idx[i],
            seg_points(track_segments(t)[i]).len() as int,
        )
}

/// `out` is the reduction of `orig` by the per-segment index lists `idx`:
/// every track-level attribute is carried over, and each segment of `out`
/// holds exactly the points of the corresponding segment of `orig` that
/// `idx` selects.
pub open spec fn reduced_track(orig: gpx::Track, out: gpx::Track, idx: Seq<Seq<usize>>) -> bool {
    &&& track_attributes(out) == track_attributes(orig)
    &&& track_name(out) == track_name(orig)
    &&& idx.len() == track_segments(orig).len()
    &&& track_segments(out).len() == track_segments(orig).len()
    &&& forall|i: int|
        0 <= i < idx.len() ==> seg_points(#[trigger] track_segments(out)[i]) == selected_points(
            seg_points(track_segments(orig)[i]),
            idx[i],
        )
}

/// Endpoint preservation: `out` has the same number of segments as
/// `orig`, and wherever a segment of `orig` is non-empty, the matching
/// segment of `out` is non-empty and starts and ends with the same points.
pub open spec fn endpoints_preserved(orig: gpx::Track, out: gpx::Track) -> bool {
    &&& track_segments(out).len() == track_segments(orig).len()
    &&& forall|i: int|
        0 <= i < track_segments(orig).len() && seg_points(
            #[trigger] track_segments(orig)[i],
        ).len() >= 1 ==> seg_points(track_segments(out)[i]).len() >= 1 && seg_points(
            track_segments(out)[i],
        )[0] == seg_points(track_segments(orig)[i])[0] && seg_points(
            track_segments(out)[i],
        ).last() == seg_points(track_segments(orig)[i]).last()
}

/// A reduced track holds exactly as many points as its retained-index
/// lists select.
pub proof fn lemma_reduced_track_point_total(
    orig: gpx::Track,
    out: gpx::Track,
    idx: Seq<Seq<usize>>,
)
    requires
        reduced_track(orig, out, idx),
    ensures
        crate::counting::track_point_total(out) == crate::counting::total_index_count(idx),
{
    assert forall|i: int|
        0 <= i < track_segments(out).len() implies seg_points(
        #[trigger] track_segments(out)[i],
    ).len() == idx[i].len() by {
        assert(seg_points(track_segments(out)[i]) == selected_points(
            seg_points(track_segments(orig)[i]),
            idx[i],
        ));
    }
    crate::counting::lemma_matching_totals(track_segments(out), idx);
}

/// A reduction built from valid retained-index lists preserves every
/// segment's first and last point.
pub proof fn lemma_reduction_preserves_endpoints(
    orig: gpx::Track,
    out: gpx::Track,
    idx: Seq<Seq<usize>>,
)
    requires
        valid_trial_indices(idx, orig),
        reduced_track(orig, out, idx),
    ensures
        endpoints_preserved(orig, out),
{
    assert forall|i: int|
        0 <= i < track_segments(orig).len() && seg_points(
            #[trigger] track_segments(orig)[i],
        ).len() >= 1 implies seg_points(track_segments(out)[i]).len() >= 1 && seg_points(
        track_segments(out)[i],
    )[0] == seg_points(track_segments(orig)[i])[0] && seg_points(track_segments(out)[i]).last()
        == seg_points(track_segments(orig)[i]).last() by {
        let po = seg_points(track_segments(orig)[i]);
        let pr = seg_points(track_segments(out)[i]);
        assert(pr == selected_points(po, idx[i]));
        assert(valid_segment_indices(idx[i], po.len() as int));
        assert(pr.len() == idx[i].len());
        assert(pr[0] == po[idx[i][0] as int]);
        assert(pr.last() == po[idx[i].last() as int]);
    }
}

/// Builds the segment that keeps exactly the points of `original` at the
/// given indices, each kept point carried over unchanged.
pub fn create_segment_from_indices(original: &gpx::TrackSegment, indices: &Vec<usize>) -> (s:
    gpx::TrackSegment)
    requires
        forall|k: int|
            0 <= k < indices@.len() ==> #[trigger] indices@[k] < seg_points(*original).len(),
    ensures
        seg_points(s) == selected_points(seg_points(*original), indices@),
{
    let ghost orig = seg_points(*original);
    let mut points: Vec<gpx::Waypoint> = Vec::new();
    let mut k: usize = 0;
    while k < indices.len()
        invariant
            0 <= k <= indices@.len(),
            forall|j: int| 0 <= j < indices@.len() ==> #[trigger] indices@[j] < orig.len(),
            orig == seg_points(*original),
            points@ =~= selected_points(orig, indices@.take(k as int)),
        decreases indices@.len() - k,
    {
        let idx = indices[k];
        let w = seg_point_at(original, idx);
        points.push(w.clone());
        proof {
            assert(indices@.take(k + 1).drop_last() =~= indices@.take(k as int));
            assert(points@ =~= selected_points(orig, indices@.take(k + 1)));
        }
        k = k + 1;
    }
    proof {
        assert(indices@.take(indices@.len() as int) =~= indices@);
    }
    seg_from_points(points)
}

/// Builds the track whose segments keep exactly the points selected by the
/// per-segment index lists, with every track-level attribute carried over
/// from `track` unchanged.
pub fn create_track_from_indices(track: &gpx::Track, indices_per_segment: &Vec<Vec<usize>>) -> (r:
    gpx::Track)
    requires
        indices_per_segment.deep_view().len() == track_segments(*track).len(),
        forall|i: int, k: int|
            0 <= i < indices_per_segment.deep_view().len() && 0 <= k
                < indices_per_segment.deep_view()[i].len()
                ==> #[trigger] indices_per_segment.deep_view()[i][k] < seg_points(
                track_segments(*track)[i],
            ).len(),
    ensures
        track_attributes(r) == track_attributes(*track),
        track_name(r) == track_name(*track),
        track_segments(r).len() == track_segments(*track).len(),
        forall|i: int|
            0 <= i < track_segments(r).len() ==> seg_points(#[trigger] track_segments(r)[i])
                == selected_points(
                seg_points(track_segments(*track)[i]),
                indices_per_segment.deep_view()[i],
            ),
{
    let ghost dv = indices_per_segment.deep_view();
    let ghost orig_segs = track_segments(*track);
    let mut segments: Vec<gpx::TrackSegment> = Vec::new();
    let mut i: usize = 0;
    let n = track_segment_count(track);
    while i < n
        invariant
            0 <= i <= dv.len(),
            n == dv.len(),
            dv == indices_per_segment.deep_view(),
            dv.len() == indices_per_segment@.len(),
            orig_segs == track_segments(*track),
            dv.len() == orig_segs.len(),
            forall|a: int, k: int|
                0 <= a < dv.len() && 0 <= k < dv[a].len() ==> #[trigger] dv[a][k] < seg_points(
                    orig_segs[a],
                ).len(),
            segments@.len() == i,
            forall|a: int|
                0 <= a < i ==> seg_points(#[trigger] segments@[a]) == selected_points(
                    seg_points(orig_segs[a]),
                    dv[a],
                ),
        decreases dv.len() - i,
    {
        let seg = track_segment_at(track, i);
        let idx: &Vec<usize> = &indices_per_segment[i];
        proof {
            assert(idx.deep_view() == dv[i as int]);
            assert(forall|k: int| 0 <= k < idx@.len() ==> idx@[k] == dv[i as int][k]);
        }
        let reduced = create_segment_from_indices(seg, idx);
        proof {
            assert(idx@ =~= dv[i as int]);
        }
        segments.push(reduced);
        i = i + 1;
    }
    track_with_segments(track, segments)
}

} // verus!
