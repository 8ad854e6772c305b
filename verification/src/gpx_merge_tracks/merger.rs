//! Merging of all tracks of a GPX document into a single track that
//! carries the given name and all segments in their original order.

use vstd::prelude::*;

use crate::gpx_model::{gpx_attributes, gpx_routes, gpx_set_tracks, gpx_take_tracks, gpx_tracks,
    gpx_waypoints, track_default_attributes, track_name, track_new_with_name, track_segments,
    track_segments_vec, track_with_segments};

verus! {

/// The segments of all tracks, concatenated in track order.
pub open spec fn all_segments(tracks: Seq<gpx::Track>) -> Seq<gpx::TrackSegment>
    decreases tracks.len(),
{
    if tracks.len() == 0 {
        Seq::<gpx::TrackSegment>::empty()
    } else {
        all_segments(tracks.drop_last()) + track_segments(tracks.last())
    }
}

proof fn lemma_all_segments_take(tracks: Seq<gpx::Track>, i: int)
    requires
        0 <= i < tracks.len(),
    ensures
        all_segments(tracks.take(i + 1)) == all_segments(tracks.take(i)) + track_segments(
            tracks[i],
        ),
{
    assert(tracks.take(i + 1).drop_last() =~= tracks.take(i));
    assert(tracks.take(i + 1).last() == tracks[i]);
}

/// Replaces all tracks of the document by a single track, named
/// `merged_name`, whose segments are the segments of every original
/// track in order and whose other fields hold their default values.
/// Every non-track field of the document stays unchanged.
pub fn merge_tracks(gpx_data: &mut gpx::Gpx, merged_name: String)
    ensures
        gpx_attributes(*final(gpx_data)) == gpx_attributes(*old(gpx_data)),
        gpx_waypoints(*final(gpx_data)) == gpx_waypoints(*old(gpx_data)),
        gpx_routes(*final(gpx_data)) == gpx_routes(*old(gpx_data)),
        gpx_tracks(*final(gpx_data)).len() == 1,
        track_name(gpx_tracks(*final(gpx_data))[0]) == Option::Some(merged_name@),
        track_default_attributes(gpx_tracks(*final(gpx_data))[0]),
        track_segments(gpx_tracks(*final(gpx_data))[0]) == all_segments(
            gpx_tracks(*old(gpx_data)),
        ),
{
    let ghost orig_tracks = gpx_tracks(*old(gpx_data));
    let tracks = gpx_take_tracks(gpx_data);
    let n = tracks.len();
    let mut segments: Vec<gpx::TrackSegment> = Vec::new();
    let mut i: usize = 0;
    proof {
        assert(orig_tracks.take(0) =~= Seq::<gpx::Track>::empty());
    }
    while i < n
        invariant
            0 <= i <= n,
            n == tracks@.len(),
            tracks@ == orig_tracks,
            segments@ == all_segments(orig_tracks.take(i as int)),
        decreases n - i,
    {
        proof {
            lemma_all_segments_take(orig_tracks, i as int);
        }
        let mut segs = track_segments_vec(&tracks[i]);
        segments.append(&mut segs);
        i = i + 1;
    }
    proof {
        assert(orig_tracks.take(orig_tracks.len() as int) =~= orig_tracks);
    }
    let merged_base = track_new_with_name(merged_name);
    let merged = track_with_segments(&merged_base, segments);
    let mut new_tracks: Vec<gpx::Track> = Vec::new();
    new_tracks.push(merged);
    gpx_set_tracks(gpx_data, new_tracks);
}

} // verus!
