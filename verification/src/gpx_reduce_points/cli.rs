//! The decision core of the point reduction tool: turns parsed command
//! line values into the resolved output path and the solver
//! configuration.  Argument parsing and file handling stay with the
//! caller.

use vstd::prelude::*;

use crate::gpx_reduce_points::simplifier::{SimplificationMethod, SolverConfig};
use crate::util::{option_string_view, process_output_path, resolved_output_path, PathError};

verus! {

/// Which simplification algorithm was asked for on the command line.
#[derive(Clone, Copy, Debug, PartialEq, Eq, Structural)]
pub enum AlgorithmOption {
    /// Ramer-Douglas-Peucker.
    Rdp,
    /// Visvalingam-Whyatt.
    Vw,
}

/// IEEE 754 bit pattern of the default initial tolerance for the
/// Ramer-Douglas-Peucker algorithm (one thousandth).
pub const DEFAULT_RDP_EPSILON_BITS: u64 = 0x3F50_624D_D2F1_A9FC;

/// IEEE 754 bit pattern of the default initial tolerance for the
/// Visvalingam-Whyatt algorithm (one ten-thousandth).
pub const DEFAULT_VW_EPSILON_BITS: u64 = 0x3F1A_36E2_EB1C_432D;

/// The parsed command line values of the point reduction tool, as plain
/// data.
pub struct Args {
    /// File name component of the input path, where it has one.
    pub input_file_name: Option<String>,
    /// Output path as given.
    pub output_path: String,
    /// Whether the output path names a directory.
    pub output_path_is_dir: bool,
    /// Max point count per track.
    pub max_points: u32,
    /// Max solver iterations.
    pub max_iterations: u32,
    /// Simplification algorithm.
    pub algorithm: AlgorithmOption,
    /// Initial tolerance, as an IEEE 754 bit pattern, where one was
    /// given.
    pub epsilon_bits: Option<u64>,
    /// Disable logging.
    pub quiet: bool,
}

/// What the point reduction tool will do: where to write and with which
/// solver configuration.
pub struct Plan {
    /// Resolved output file path.
    pub output_path: String,
    /// The solver configuration.
    pub config: SolverConfig,
    /// Disable logging.
    pub quiet: bool,
}

/// The simplification method an algorithm choice selects.
pub open spec fn chosen_method(algorithm: AlgorithmOption) -> SimplificationMethod {
    match algorithm {
        AlgorithmOption::Rdp => SimplificationMethod::RamerDouglasPeucker,
        AlgorithmOption::Vw => SimplificationMethod::VisvalingamWhyatt,
    }
}

/// The initial tolerance: as given, or the algorithm's default.
pub open spec fn chosen_epsilon_bits(epsilon_bits: Option<u64>, algorithm: AlgorithmOption)
    -> u64 {
    match epsilon_bits {
        Option::Some(e) => e,
        Option::None => match algorithm {
            AlgorithmOption::Rdp => DEFAULT_RDP_EPSILON_BITS,
            AlgorithmOption::Vw => DEFAULT_VW_EPSILON_BITS,
        },
    }
}

/// Builds the point reduction tool's plan from its parsed command line
/// values: the resolved output path and the solver configuration, with
/// the algorithm's default tolerance where none was given.
pub fn run_cli(args: Args) -> (r: Result<Plan, PathError>)
    ensures
        (resolved_output_path(
            args.output_path@,
            args.output_path_is_dir,
            option_string_view(args.input_file_name),
        ) matches Err(e) ==> r matches Err(e2) && e2 == e),
        (resolved_output_path(
            args.output_path@,
            args.output_path_is_dir,
            option_string_view(args.input_file_name),
        ) matches Ok(path) ==> (r matches Ok(p) && p.output_path@ == path && p.quiet == args.quiet
            && p.config.max_points == args.max_points && p.config.max_iterations
            == args.max_iterations && p.config.method == chosen_method(args.algorithm)
            && p.config.initial_epsilon_bits == chosen_epsilon_bits(
            args.epsilon_bits,
            args.algorithm,
        ))),
{
    let resolved = match process_output_path(
        args.output_path,
        args.output_path_is_dir,
        args.input_file_name,
    ) {
        Ok(path) => path,
        Err(e) => {
            return Err(e);
        },
    };
    let method = match args.algorithm {
        AlgorithmOption::Rdp => SimplificationMethod::RamerDouglasPeucker,
        AlgorithmOption::Vw => SimplificationMethod::VisvalingamWhyatt,
    };
    let initial_epsilon_bits = match args.epsilon_bits {
        Some(e) => e,
        None => match args.algorithm {
            AlgorithmOption::Rdp => DEFAULT_RDP_EPSILON_BITS,
            AlgorithmOption::Vw => DEFAULT_VW_EPSILON_BITS,
        },
    };
    let config = SolverConfig {
        max_points: args.max_points,
        max_iterations: args.max_iterations,
        method,
        initial_epsilon_bits,
    };
    Ok(Plan { output_path: resolved, config, quiet: args.quiet })
}

} // verus!
