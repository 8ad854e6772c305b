//! The decision core of the file splitting tool: checks that the output
//! names a directory and settles the base file name for the generated
//! files.  Argument parsing and file handling stay with the caller.

use vstd::prelude::*;

use crate::gpx_split_file::splitter::NamingStyle;
use crate::util::{option_string_view, PathError};

verus! {

/// The parsed command line values of the file splitting tool, as plain
/// data.
pub struct Args {
    /// Whether the output folder path names a directory.
    pub output_folder_is_dir: bool,
    /// Disable logging.
    pub quiet: bool,
    /// Copy the general file metadata into each resulting file.
    pub keep_metadata: bool,
    /// Naming style for the generated file names.
    pub naming_style: NamingStyle,
    /// Base file name for the resulting files, where one was given.
    pub base_file_name: Option<String>,
    /// The input path's file stem, where it has a UTF-8 one.
    pub input_file_stem: Option<String>,
}

/// What the file splitting tool will do: which base name and style to
/// generate file names with.
pub struct Plan {
    /// Base file name of the generated files.
    pub base_file_name: String,
    /// Disable logging.
    pub quiet: bool,
    /// Copy the general file metadata into each resulting file.
    pub keep_metadata: bool,
    /// Naming style for the generated file names.
    pub naming_style: NamingStyle,
}

/// Builds the file splitting tool's plan from its parsed command line
/// values: the output must name a directory, and the base file name is
/// the one given, or else the input path's file stem.
pub fn run_cli(args: Args) -> (r: Result<Plan, PathError>)
    ensures
        !args.output_folder_is_dir ==> (r matches Err(e) && e == PathError::OutputPathIsNotFolder),
        args.output_folder_is_dir && args.base_file_name is Some ==> (r matches Ok(p)
            && option_string_view(args.base_file_name) == Option::Some(p.base_file_name@) && p.quiet
            == args.quiet && p.keep_metadata == args.keep_metadata && p.naming_style
            == args.naming_style),
        args.output_folder_is_dir && args.base_file_name is None && args.input_file_stem is Some
            ==> (r matches Ok(p) && option_string_view(args.input_file_stem) == Option::Some(
            p.base_file_name@,
        ) && p.quiet == args.quiet && p.keep_metadata == args.keep_metadata && p.naming_style
            == args.naming_style),
        args.output_folder_is_dir && args.base_file_name is None && args.input_file_stem is None
            ==> (r matches Err(e) && e == PathError::MissingInputFileName),
{
    if !args.output_folder_is_dir {
        return Err(PathError::OutputPathIsNotFolder);
    }
    let base_file_name = match args.base_file_name {
        Some(name) => name,
        None => match args.input_file_stem {
            Some(stem) => stem,
            None => {
                return Err(PathError::MissingInputFileName);
            },
        },
    };
    Ok(
        Plan {
            base_file_name,
            quiet: args.quiet,
            keep_metadata: args.keep_metadata,
            naming_style: args.naming_style,
        },
    )
}

} // verus!
