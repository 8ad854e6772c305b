//! The decision core of the GPX-to-KML conversion tool: settles where
//! the output goes and carries the line style through.  Argument
//! parsing, the conversion itself and file handling stay with the
//! caller, which also exchanges the resolved path's extension.

use vstd::prelude::*;

use crate::util::{option_string_view, process_output_path, resolved_output_path,
    OutputTarget, PathError};

verus! {

/// The parsed command line values of the GPX-to-KML tool, as plain data.
pub struct Args {
    /// File name component of the input path, where it has one.
    pub input_file_name: Option<String>,
    /// Output path as given, where one was given.
    pub output_path: Option<String>,
    /// Whether the given output path names a directory.
    pub output_path_is_dir: bool,
    /// Disable logging.
    pub quiet: bool,
    /// Line colour, with the alpha value at the end.
    pub line_color: String,
    /// Line width, as an IEEE 754 bit pattern.
    pub line_width_bits: u64,
}

/// What the GPX-to-KML tool will do: where to write (before the
/// extension is exchanged) and with which line style.
pub struct Plan {
    /// Where the output goes.
    pub output: OutputTarget,
    /// Disable logging.
    pub quiet: bool,
    /// Line colour, with the alpha value at the end.
    pub line_color: String,
    /// Line width, as an IEEE 754 bit pattern.
    pub line_width_bits: u64,
}

/// Builds the GPX-to-KML tool's plan from its parsed command line
/// values: without an output path the output file derives from the input
/// path, otherwise the given path resolves against the input file name.
pub fn run_cli(args: Args) -> (r: Result<Plan, PathError>)
    ensures
        args.output_path is None ==> (r matches Ok(p) && p.output == OutputTarget::DeriveFromInput
            && p.quiet == args.quiet && p.line_color == args.line_color && p.line_width_bits
            == args.line_width_bits),
        (args.output_path matches Some(out) ==> ((resolved_output_path(
            out@,
            args.output_path_is_dir,
            option_string_view(args.input_file_name),
        ) matches Err(e) ==> r matches Err(e2) && e2 == e) && (resolved_output_path(
            out@,
            args.output_path_is_dir,
            option_string_view(args.input_file_name),
        ) matches Ok(path) ==> (r matches Ok(p) && (p.output matches OutputTarget::Path(q) && q@
            == path) && p.quiet == args.quiet && p.line_color == args.line_color
            && p.line_width_bits == args.line_width_bits)))),
{
    let output = match args.output_path {
        None => OutputTarget::DeriveFromInput,
        Some(out) => {
            match process_output_path(out, args.output_path_is_dir, args.input_file_name) {
                Ok(path) => OutputTarget::Path(path),
                Err(e) => {
                    return Err(e);
                },
            }
        },
    };
    Ok(
        Plan {
            output,
            quiet: args.quiet,
            line_color: args.line_color,
            line_width_bits: args.line_width_bits,
        },
    )
}

} // verus!
