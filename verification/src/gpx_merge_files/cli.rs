//! The decision core of the file merging tool: turns parsed command line
//! values into the resolved output path and the kinds of features to
//! merge.  Argument parsing and file handling stay with the caller.

use vstd::prelude::*;

use crate::util::{option_string_view, process_output_path, resolved_output_path, PathError};

verus! {

/// The parsed command line values of the file merging tool, as plain
/// data.  The output path resolves against the base file's name.
pub struct Args {
    /// File name component of the base file's path, where it has one.
    pub master_file_name: Option<String>,
    /// Output path as given.
    pub output_path: String,
    /// Whether the output path names a directory.
    pub output_path_is_dir: bool,
    /// Disable logging.
    pub quiet: bool,
    /// Do not merge routes.
    pub no_routes: bool,
    /// Do not merge tracks.
    pub no_tracks: bool,
    /// Do not merge waypoints.
    pub no_waypoints: bool,
}

/// What the file merging tool will do: where to write and which feature
/// kinds to merge into the base file.
pub struct Plan {
    /// Resolved output file path.
    pub output_path: String,
    /// Disable logging.
    pub quiet: bool,
    /// Merge the other files' tracks.
    pub merge_tracks: bool,
    /// Merge the other files' routes.
    pub merge_routes: bool,
    /// Merge the other files' waypoints.
    pub merge_waypoints: bool,
}

/// Builds the file merging tool's plan from its parsed command line
/// values.
pub fn run_cli(args: Args) -> (r: Result<Plan, PathError>)
    ensures
        (resolved_output_path(
            args.output_path@,
            args.output_path_is_dir,
            option_string_view(args.master_file_name),
        ) matches Err(e) ==> r matches Err(e2) && e2 == e),
        (resolved_output_path(
            args.output_path@,
            args.output_path_is_dir,
            option_string_view(args.master_file_name),
        ) matches Ok(path) ==> (r matches Ok(p) && p.output_path@ == path && p.quiet == args.quiet
            && p.merge_tracks == !args.no_tracks && p.merge_routes == !args.no_routes
            && p.merge_waypoints == !args.no_waypoints)),
{
    let resolved = match process_output_path(
        args.output_path,
        args.output_path_is_dir,
        args.master_file_name,
    ) {
        Ok(path) => path,
        Err(e) => {
            return Err(e);
        },
    };
    Ok(
        Plan {
            output_path: resolved,
            quiet: args.quiet,
            merge_tracks: !args.no_tracks,
            merge_routes: !args.no_routes,
            merge_waypoints: !args.no_waypoints,
        },
    )
}

} // verus!
