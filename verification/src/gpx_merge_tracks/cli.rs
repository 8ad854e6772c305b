//! The decision core of the track merging tool: turns parsed command
//! line values into the resolved output path and the merged track's
//! name.  Argument parsing and file handling stay with the caller.

use vstd::prelude::*;

use crate::util::{option_string_view, process_output_path, resolved_output_path, PathError};

verus! {

/// The parsed command line values of the track merging tool, as plain
/// data.
pub struct Args {
    /// File name component of the input path, where it has one.
    pub input_file_name: Option<String>,
    /// Output path as given.
    pub output_path: String,
    /// Whether the output path names a directory.
    pub output_path_is_dir: bool,
    /// Disable logging.
    pub quiet: bool,
    /// Name for the resulting merged track.
    pub name: String,
}

/// What the track merging tool will do: where to write and what to call
/// the merged track.
pub struct Plan {
    /// Resolved output file path.
    pub output_path: String,
    /// Disable logging.
    pub quiet: bool,
    /// Name for the resulting merged track.
    pub merged_track_name: String,
}

/// Builds the track merging tool's plan from its parsed command line
/// values.
pub fn run_cli(args: Args) -> (r: Result<Plan, PathError>)
    ensures
        (resolved_output_path(
            args.output_path@,
            args.output_path_is_dir,
            option_string_view(args.input_file_name),
        ) matches Err(e) ==> r matches Err(e2) && e2 == e),
        (resolved_output_path(
            args.output_path@,
            args.output_path_is_dir,
            option_string_view(args.input_file_name),
        ) matches Ok(path) ==> (r matches Ok(p) && p.output_path@ == path && p.quiet == args.quiet
            && p.merged_track_name == args.name)),
{
    let resolved = match process_output_path(
        args.output_path,
        args.output_path_is_dir,
        args.input_file_name,
    ) {
        Ok(path) => path,
        Err(e) => {
            return Err(e);
        },
    };
    Ok(Plan { output_path: resolved, quiet: args.quiet, merged_track_name: args.name })
}

} // verus!
