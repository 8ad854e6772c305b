//! Point counting for tracks and trial results.
//!
//! Counts are reported as `u64` values that saturate at `u64::MAX`; a real
//! in-memory track can never come near that bound, and every comparison the
//! reduction engine makes is against a `u32` budget, so saturation never
//! changes a decision.

use vstd::prelude::*;

use crate::gpx_model::{seg_point_count, seg_points, track_segment_at, track_segment_count,
    track_segments};

verus! {

/// Mathematical sum of the lengths of a sequence of index lists.
pub open spec fn total_index_count(idx: Seq<Seq<usize>>) -> int
    decreases idx.len(),
{
    if idx.len() == 0 {
        0
    } else {
        total_index_count(idx.drop_last()) + idx.last().len()
    }
}

/// Mathematical sum of the point counts of a sequence of segments.
pub open spec fn total_segment_points(segs: Seq<gpx::TrackSegment>) -> int
    decreases segs.len(),
{
    if segs.len() == 0 {
        0
    } else {
        total_segment_points(segs.drop_last()) + seg_points(segs.last()).len()
    }
}

/// Mathematical total point count of a track.
pub open spec fn track_point_total(t: gpx::Track) -> int {
    total_segment_points(track_segments(t))
}

/// A nonnegative integer clamped into `u64`.
pub open spec fn clamped_count(n: int) -> u64 {
    if n > u64::MAX {
        u64::MAX
    } else if n < 0 {
        0
    } else {
        n as u64
    }
}

proof fn lemma_total_index_count_take(idx: Seq<Seq<usize>>, i: int)
    requires
        0 <= i < idx.len(),
    ensures
        total_index_count(idx.take(i + 1)) == total_index_count(idx.take(i)) + idx[i].len(),
{
    assert(idx.take(i + 1).drop_last() =~= idx.take(i));
    assert(idx.take(i + 1).last() == idx[i]);
}

proof fn lemma_total_segment_points_take(segs: Seq<gpx::TrackSegment>, i: int)
    requires
        0 <= i < segs.len(),
    ensures
        total_segment_points(segs.take(i + 1)) == total_segment_points(segs.take(i)) + seg_points(
            segs[i],
        ).len(),
{
    assert(segs.take(i + 1).drop_last() =~= segs.take(i));
    assert(segs.take(i + 1).last() == segs[i]);
}

/// Every partial sum of index-list lengths is nonnegative.
pub proof fn lemma_total_index_count_nonneg(idx: Seq<Seq<usize>>)
    ensures
        total_index_count(idx) >= 0,
    decreases idx.len(),
{
    if idx.len() > 0 {
        lemma_total_index_count_nonneg(idx.drop_last());
    }
}

pub proof fn lemma_total_segment_points_nonneg(segs: Seq<gpx::TrackSegment>)
    ensures
        total_segment_points(segs) >= 0,
    decreases segs.len(),
{
    if segs.len() > 0 {
        lemma_total_segment_points_nonneg(segs.drop_last());
    }
}

/// Segments whose point counts match the index-list lengths one for one
/// have the same total as the index lists.
pub proof fn lemma_matching_totals(segs: Seq<gpx::TrackSegment>, idx: Seq<Seq<usize>>)
    requires
        segs.len() == idx.len(),
        forall|i: int|
            0 <= i < segs.len() ==> seg_points(#[trigger] segs[i]).len() == idx[i].len(),
    ensures
        total_segment_points(segs) == total_index_count(idx),
    decreases segs.len(),
{
    if segs.len() > 0 {
        assert(forall|i: int|
            0 <= i < segs.drop_last().len() ==> seg_points(#[trigger] segs.drop_last()[i]).len()
                == idx.drop_last()[i].len());
        lemma_matching_totals(segs.drop_last(), idx.drop_last());
        assert(seg_points(segs.last()).len() == idx.last().len());
    }
}

/// Sums the lengths of the per-segment index lists of one trial,
/// saturating at `u64::MAX`.
pub fn count_points_in_simplified_segment_indices(indices_per_segment: &Vec<Vec<usize>>) -> (n:
    u64)
    ensures
        n == clamped_count(total_index_count(indices_per_segment.deep_view())),
{
    let ghost dv = indices_per_segment.deep_view();
    let mut n: u64 = 0;
    let mut i: usize = 0;
    proof {
        assert(dv.take(0) =~= Seq::<Seq<usize>>::empty());
    }
    while i < indices_per_segment.len()
        invariant
            0 <= i <= dv.len(),
            dv.len() == indices_per_segment.len(),
            dv == indices_per_segment.deep_view(),
            n == clamped_count(total_index_count(dv.take(i as int))),
        decreases dv.len() - i,
    {
        proof {
            lemma_total_index_count_take(dv, i as int);
            lemma_total_index_count_nonneg(dv.take(i as int));
            assert(dv[i as int] == indices_per_segment@[i as int].deep_view());
            assert(dv[i as int].len() == indices_per_segment@[i as int]@.len());
        }
        let len_i: usize = indices_per_segment[i].len();
        n = n.saturating_add(len_i as u64);
        i = i + 1;
    }
    proof {
        assert(dv.take(dv.len() as int) =~= dv);
    }
    n
}

/// Sums the point counts of all segments of a track, saturating at
/// `u64::MAX`.
pub fn count_points_in_track(track: &gpx::Track) -> (n: u64)
    ensures
        n == clamped_count(track_point_total(*track)),
{
    let ghost segs = track_segments(*track);
    let mut n: u64 = 0;
    let mut i: usize = 0;
    let seg_count = track_segment_count(track);
    proof {
        assert(segs.take(0) =~= Seq::<gpx::TrackSegment>::empty());
    }
    while i < seg_count
        invariant
            0 <= i <= segs.len(),
            seg_count == segs.len(),
            segs == track_segments(*track),
            n == clamped_count(total_segment_points(segs.take(i as int))),
        decreases segs.len() - i,
    {
        proof {
            lemma_total_segment_points_take(segs, i as int);
            lemma_total_segment_points_nonneg(segs.take(i as int));
        }
        let seg = track_segment_at(track, i);
        let len_i: usize = seg_point_count(seg);
        n = n.saturating_add(len_i as u64);
        i = i + 1;
    }
    proof {
        assert(segs.take(segs.len() as int) =~= segs);
    }
    n
}

} // verus!
