//! The decision core of the info tool: passes the parsed command line
//! values through as the plan.  Argument parsing and printing stay with
//! the caller.

use vstd::prelude::*;

verus! {

/// The parsed command line values of the info tool, as plain data.
pub struct Args {
    /// Input file path as given.
    pub input_path: String,
    /// Display additional information.
    pub verbose: bool,
}

/// What the info tool will do: which file to describe and how much.
pub struct Plan {
    /// Input file path to read.
    pub input_path: String,
    /// Display additional information.
    pub verbose: bool,
}

/// Builds the info tool's plan from its parsed command line values.
pub fn run_cli(args: Args) -> (p: Plan)
    ensures
        p.input_path == args.input_path,
        p.verbose == args.verbose,
{
    Plan { input_path: args.input_path, verbose: args.verbose }
}

} // verus!
