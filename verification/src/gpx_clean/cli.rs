//! The decision core of the cleaning tool: turns parsed command line
//! values into the resolved output path and the ordered list of cleaning
//! operations to run.  Argument parsing and file handling stay with the
//! caller.

use vstd::prelude::*;

use crate::gpx_clean::cleaner::{AsciiErrorStrategy, EncodingOption, VersionOption};
use crate::util::{option_string_view, process_output_path, resolved_output_path, PathError};

verus! {

/// The parsed command line values of the cleaning tool, as plain data:
/// the file name carried by the input path, the output path and whether
/// it names a directory, and the cleaning choices.
pub struct Args {
    /// File name component of the input path, where it has one.
    pub input_file_name: Option<String>,
    /// Output path as given.
    pub output_path: String,
    /// Whether the output path names a directory.
    pub output_path_is_dir: bool,
    /// Disable logging.
    pub quiet: bool,
    /// Output file encoding.
    pub encoding: EncodingOption,
    /// Strategy for dealing with non-ASCII bytes.
    pub strategy: AsciiErrorStrategy,
    /// New value for the creator field, if it is to be set.
    pub set_creator: Option<String>,
    /// The GPX version the output declares.
    pub set_version: VersionOption,
    /// Interactively rename each track.
    pub rename_tracks: bool,
    /// Remove all waypoints.
    pub remove_waypoints: bool,
    /// Remove all tracks.
    pub remove_tracks: bool,
    /// Remove all routes.
    pub remove_routes: bool,
    /// Remove the general file metadata.
    pub remove_metadata: bool,
    /// Remove general metadata (except the name) from each track.
    pub remove_track_metadata: bool,
    /// Remove general metadata (except the name) from each route.
    pub remove_route_metadata: bool,
    /// Remove the metadata from each track point.
    pub remove_track_point_metadata: bool,
    /// Remove the metadata from each route point.
    pub remove_route_point_metadata: bool,
    /// Remove the elevation from each track point.
    pub remove_track_elevation: bool,
    /// Remove the elevation from each route point.
    pub remove_route_elevation: bool,
}

/// One cleaning operation, in the order the tool runs them.
#[derive(Clone, Debug, PartialEq, Eq)]
pub enum CleanOp {
    SetVersion(VersionOption),
    SetCreator(String),
    RemoveMetadata,
    RemoveWaypoints,
    RemoveTracks,
    RemoveRoutes,
    RemoveTrackMetadata,
    RemoveRouteMetadata,
    RemoveTrackPointMetadata,
    RemoveRoutePointMetadata,
    RemoveTrackElevation,
    RemoveRouteElevation,
    RenameTracksInteractively,
}

/// What the cleaning tool will do: where to write, which operations to
/// run in which order, and how to encode the output.
pub struct Plan {
    /// Resolved output file path.
    pub output_path: String,
    /// Disable logging.
    pub quiet: bool,
    /// The cleaning operations, in execution order.
    pub operations: Vec<CleanOp>,
    /// Whether the serialized output is restricted to ASCII.
    pub to_ascii: bool,
    /// How non-ASCII bytes are dealt with when restricting.
    pub ascii_strategy: AsciiErrorStrategy,
}

/// The cleaning operations the flags ask for, in the fixed execution
/// order: version first, then the creator, the removals, and interactive
/// renaming last.
pub open spec fn clean_operations(args: Args) -> Seq<CleanOp> {
    let s = seq![CleanOp::SetVersion(args.set_version)];
    let s = (match args.set_creator {
        Option::Some(c) => s.push(CleanOp::SetCreator(c)),
        Option::None => s,
    });
    let s = if args.remove_metadata {
        s.push(CleanOp::RemoveMetadata)
    } else {
        s
    };
    let s = if args.remove_waypoints {
        s.push(CleanOp::RemoveWaypoints)
    } else {
        s
    };
    let s = if args.remove_tracks {
        s.push(CleanOp::RemoveTracks)
    } else {
        s
    };
    let s = if args.remove_routes {
        s.push(CleanOp::RemoveRoutes)
    } else {
        s
    };
    let s = if args.remove_track_metadata {
        s.push(CleanOp::RemoveTrackMetadata)
    } else {
        s
    };
    let s = if args.remove_route_metadata {
        s.push(CleanOp::RemoveRouteMetadata)
    } else {
        s
    };
    let s = if args.remove_track_point_metadata {
        s.push(CleanOp::RemoveTrackPointMetadata)
    } else {
        s
    };
    let s = if args.remove_route_point_metadata {
        s.push(CleanOp::RemoveRoutePointMetadata)
    } else {
        s
    };
    let s = if args.remove_track_elevation {
        s.push(CleanOp::RemoveTrackElevation)
    } else {
        s
    };
    let s = if args.remove_route_elevation {
        s.push(CleanOp::RemoveRouteElevation)
    } else {
        s
    };
    if args.rename_tracks {
        s.push(CleanOp::RenameTracksInteractively)
    } else {
        s
    }
}

/// Builds the cleaning tool's plan from its parsed command line values:
/// the resolved output path, the ordered cleaning operations, and the
/// encoding choice.
pub fn run_cli(args: Args) -> (r: Result<Plan, PathError>)
    ensures
        (resolved_output_path(
            args.output_path@,
            args.output_path_is_dir,
            option_string_view(args.input_file_name),
        ) matches Err(e) ==> r matches Err(e2) && e2 == e),
        (resolved_output_path(
            args.output_path@,
            args.output_path_is_dir,
            option_string_view(args.input_file_name),
        ) matches Ok(path) ==> (r matches Ok(p) && p.output_path@ == path && p.quiet == args.quiet
            && p.operations@ == clean_operations(args) && p.to_ascii == (args.encoding
            == EncodingOption::Ascii) && p.ascii_strategy == args.strategy)),
{
    let Args {
        input_file_name,
        output_path,
        output_path_is_dir,
        quiet,
        encoding,
        strategy,
        set_creator,
        set_version,
        rename_tracks,
        remove_waypoints,
        remove_tracks,
        remove_routes,
        remove_metadata,
        remove_track_metadata,
        remove_route_metadata,
        remove_track_point_metadata,
        remove_route_point_metadata,
        remove_track_elevation,
        remove_route_elevation,
    } = args;
    let resolved = match process_output_path(output_path, output_path_is_dir, input_file_name) {
        Ok(path) => path,
        Err(e) => {
            return Err(e);
        },
    };
    let mut operations: Vec<CleanOp> = Vec::new();
    operations.push(CleanOp::SetVersion(set_version));
    match set_creator {
        Some(c) => {
            operations.push(CleanOp::SetCreator(c));
        },
        None => {},
    }
    if remove_metadata {
        operations.push(CleanOp::RemoveMetadata);
    }
    if remove_waypoints {
        operations.push(CleanOp::RemoveWaypoints);
    }
    if remove_tracks {
        operations.push(CleanOp::RemoveTracks);
    }
    if remove_routes {
        operations.push(CleanOp::RemoveRoutes);
    }
    if remove_track_metadata {
        operations.push(CleanOp::RemoveTrackMetadata);
    }
    if remove_route_metadata {
        operations.push(CleanOp::RemoveRouteMetadata);
    }
    if remove_track_point_metadata {
        operations.push(CleanOp::RemoveTrackPointMetadata);
    }
    if remove_route_point_metadata {
        operations.push(CleanOp::RemoveRoutePointMetadata);
    }
    if remove_track_elevation {
        operations.push(CleanOp::RemoveTrackElevation);
    }
    if remove_route_elevation {
        operations.push(CleanOp::RemoveRouteElevation);
    }
    if rename_tracks {
        operations.push(CleanOp::RenameTracksInteractively);
    }
    assert(operations@ =~= clean_operations(args));
    let to_ascii = match encoding {
        EncodingOption::Ascii => true,
        EncodingOption::Utf8 => false,
    };
    Ok(
        Plan {
            output_path: resolved,
            quiet,
            operations,
            to_ascii,
            ascii_strategy: strategy,
        },
    )
}

} // verus!
