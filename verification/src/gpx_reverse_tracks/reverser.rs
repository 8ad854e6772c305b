//! Reversal of tracks: segments in reverse order, each segment's points
//! in reverse order, and an optional marker worked into the track name.

use vstd::prelude::*;
use vstd::string::StringExecFns;

use crate::gpx_model::{gpx_attributes, gpx_routes, gpx_set_tracks, gpx_take_tracks, gpx_tracks,
    gpx_waypoints, seg_from_points, seg_points, seg_points_vec, track_attributes, track_name, track_name_clone,
    track_segments, track_segments_vec, track_set_name, track_with_segments};
use crate::util::option_string_view;

verus! {

/// How a reversed track is renamed to mark it as reversed.
#[derive(Clone, Copy, Debug, PartialEq, Eq, Structural)]
pub enum RenameStrategy {
    /// Keep the original track name unchanged.
    No,
    /// Put a short marker in front of the name.
    Prefix,
    /// Put a long marker in front of the name.
    LongPrefix,
    /// Put a short marker behind the name.
    Suffix,
    /// Put a long marker behind the name.
    LongSuffix,
}

/// The name a reversed track gets under a renaming strategy other than
/// keeping the name: a marker in front of or behind the original name,
/// or the bare marker where the track had no name.
pub open spec fn renamed_track_name(name: Option<Seq<char>>, strategy: RenameStrategy) -> Seq<
    char,
> {
    match strategy {
        RenameStrategy::No => match name {
            Option::Some(n) => n,
            Option::None => Seq::<char>::empty(),
        },
        RenameStrategy::Prefix => match name {
            Option::Some(n) => ("Rev ")@ + n,
            Option::None => ("Rev")@,
        },
        RenameStrategy::LongPrefix => match name {
            Option::Some(n) => ("Reversed ")@ + n,
            Option::None => ("Reversed")@,
        },
        RenameStrategy::Suffix => match name {
            Option::Some(n) => n + (" Rev")@,
            Option::None => ("Rev")@,
        },
        RenameStrategy::LongSuffix => match name {
            Option::Some(n) => n + (" Reversed")@,
            Option::None => ("Reversed")@,
        },
    }
}

/// The segments of `out` are those of `orig` in reverse order, each with
/// its points in reverse order.
pub open spec fn segments_reversed(orig: gpx::Track, out: gpx::Track) -> bool {
    &&& track_segments(out).len() == track_segments(orig).len()
    &&& forall|i: int|
        0 <= i < track_segments(orig).len() ==> seg_points(#[trigger] track_segments(out)[i])
            == seg_points(
            track_segments(orig)[track_segments(orig).len() - 1 - i],
        ).reverse()
}

/// The name relation of a reversed track: kept as it was under
/// [`RenameStrategy::No`], renamed per [`renamed_track_name`] otherwise.
pub open spec fn reversed_name_result(orig: gpx::Track, out: gpx::Track, strategy:
    RenameStrategy) -> bool {
    if strategy == RenameStrategy::No {
        track_name(out) == track_name(orig)
    } else {
        track_name(out) == Option::Some(renamed_track_name(track_name(orig), strategy))
    }
}

/// Reverses the order of a segment's points.
pub fn reverse_segment(segment: &mut gpx::TrackSegment)
    ensures
        seg_points(*final(segment)) == seg_points(*old(segment)).reverse(),
{
    let ghost orig = seg_points(*old(segment));
    let points = seg_points_vec(&*segment);
    let n = points.len();
    let mut reversed: Vec<gpx::Waypoint> = Vec::new();
    let mut i: usize = 0;
    while i < n
        invariant
            0 <= i <= n,
            n == points@.len(),
            points@ == orig,
            reversed@.len() == i,
            forall|j: int| 0 <= j < i ==> #[trigger] reversed@[j] == orig[n - 1 - j],
        decreases n - i,
    {
        let w = &points[n - 1 - i];
        reversed.push(w.clone());
        i = i + 1;
    }
    proof {
        assert(reversed@ =~= orig.reverse());
    }
    *segment = seg_from_points(reversed);
}

/// Builds the renamed name of a reversed track.
fn build_renamed(name: &Option<String>, strategy: RenameStrategy) -> (r: String)
    requires
        strategy != RenameStrategy::No,
    ensures
        r@ == renamed_track_name(option_string_view(*name), strategy),
{
    match strategy {
        RenameStrategy::No => {
            String::new()
        },
        RenameStrategy::Prefix => match name {
            Some(n) => {
                let mut s = String::from_str("Rev ");
                s.append(n.as_str());
                s
            },
            None => String::from_str("Rev"),
        },
        RenameStrategy::LongPrefix => match name {
            Some(n) => {
                let mut s = String::from_str("Reversed ");
                s.append(n.as_str());
                s
            },
            None => String::from_str("Reversed"),
        },
        RenameStrategy::Suffix => match name {
            Some(n) => {
                let mut s = n.clone();
                s.append(" Rev");
                s
            },
            None => String::from_str("Rev"),
        },
        RenameStrategy::LongSuffix => match name {
            Some(n) => {
                let mut s = n.clone();
                s.append(" Reversed");
                s
            },
            None => String::from_str("Reversed"),
        },
    }
}

/// Reverses one track in place: its segments in reverse order, each
/// segment's points in reverse order, and the name marked per the
/// renaming strategy.  The track's other attributes stay unchanged.
pub fn reverse_track(track: &mut gpx::Track, rename_strategy: RenameStrategy)
    ensures
        segments_reversed(*old(track), *final(track)),
        reversed_name_result(*old(track), *final(track), rename_strategy),
        track_attributes(*final(track)) == track_attributes(*old(track)),
{
    let ghost orig = *old(track);
    let ghost orig_segs = track_segments(orig);
    let name = track_name_clone(&*track);
    let segments = track_segments_vec(&*track);
    let n = segments.len();
    let mut reversed_segments: Vec<gpx::TrackSegment> = Vec::new();
    let mut i: usize = 0;
    while i < n
        invariant
            0 <= i <= n,
            n == segments@.len(),
            segments@ == orig_segs,
            reversed_segments@.len() == i,
            forall|j: int|
                0 <= j < i ==> seg_points(#[trigger] reversed_segments@[j]) == seg_points(
                    orig_segs[n - 1 - j],
                ).reverse(),
        decreases n - i,
    {
        let mut seg = segments[n - 1 - i].clone();
        reverse_segment(&mut seg);
        reversed_segments.push(seg);
        i = i + 1;
    }
    *track = track_with_segments(&*track, reversed_segments);
    match rename_strategy {
        RenameStrategy::No => {},
        _ => {
            let new_name = build_renamed(&name, rename_strategy);
            track_set_name(track, new_name);
        },
    }
}

/// Reverses every track of a GPX document in place.  With `keep_original`
/// set, the original tracks are appended, in their original order, behind
/// the reversed ones.  Every non-track field of the document stays
/// unchanged.
pub fn reverse_all_tracks(gpx_data: &mut gpx::Gpx, rename_strategy: RenameStrategy, keep_original:
    bool)
    ensures
        gpx_attributes(*final(gpx_data)) == gpx_attributes(*old(gpx_data)),
        gpx_waypoints(*final(gpx_data)) == gpx_waypoints(*old(gpx_data)),
        gpx_routes(*final(gpx_data)) == gpx_routes(*old(gpx_data)),
        gpx_tracks(*final(gpx_data)).len() == if keep_original {
            2 * gpx_tracks(*old(gpx_data)).len()
        } else {
            gpx_tracks(*old(gpx_data)).len()
        },
        forall|i: int|
            0 <= i < gpx_tracks(*old(gpx_data)).len() ==> {
                let orig = gpx_tracks(*old(gpx_data))[i];
                let out = #[trigger] gpx_tracks(*final(gpx_data))[i];
                segments_reversed(orig, out) && reversed_name_result(orig, out, rename_strategy)
                    && track_attributes(out) == track_attributes(orig)
            },
        keep_original ==> forall|i: int|
            0 <= i < gpx_tracks(*old(gpx_data)).len() ==> gpx_tracks(*final(gpx_data))[gpx_tracks(
                *old(gpx_data),
            ).len() + i] == gpx_tracks(*old(gpx_data))[i],
{
    let ghost orig_tracks = gpx_tracks(*old(gpx_data));
    let tracks = gpx_take_tracks(gpx_data);
    let n = tracks.len();
    let mut result: Vec<gpx::Track> = Vec::new();
    let mut i: usize = 0;
    while i < n
        invariant
            0 <= i <= n,
            n == tracks@.len(),
            tracks@ == orig_tracks,
            result@.len() == i,
            forall|j: int|
                0 <= j < i ==> {
                    let orig = orig_tracks[j];
                    let out = #[trigger] result@[j];
                    segments_reversed(orig, out) && reversed_name_result(
                        orig,
                        out,
                        rename_strategy,
                    ) && track_attributes(out) == track_attributes(orig)
                },
        decreases n - i,
    {
        let mut t = tracks[i].clone();
        reverse_track(&mut t, rename_strategy);
        result.push(t);
        i = i + 1;
    }
    if keep_original {
        let mut i: usize = 0;
        while i < n
            invariant
                0 <= i <= n,
                n == tracks@.len(),
                tracks@ == orig_tracks,
                result@.len() == n + i,
                forall|j: int|
                    0 <= j < n ==> {
                        let orig = orig_tracks[j];
                        let out = #[trigger] result@[j];
                        segments_reversed(orig, out) && reversed_name_result(
                            orig,
                            out,
                            rename_strategy,
                        ) && track_attributes(out) == track_attributes(orig)
                    },
                forall|j: int| 0 <= j < i ==> #[trigger] result@[n + j] == orig_tracks[j],
            decreases n - i,
        {
            let t = tracks[i].clone();
            result.push(t);
            i = i + 1;
        }
    }
    gpx_set_tracks(gpx_data, result);
}

} // verus!
