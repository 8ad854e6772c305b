//! Output path handling shared by the command line tools.

use vstd::prelude::*;
use vstd::string::StringExecFns;

verus! {

/// Why a tool invocation cannot proceed.
#[derive(Clone, Copy, Debug, PartialEq, Eq, Structural)]
pub enum PathError {
    /// The input path carries no file name to append to the output
    /// directory.
    MissingInputFileName,
    /// The output path of a tool that writes several files does not name
    /// a directory.
    OutputPathIsNotFolder,
}

/// Where a conversion tool writes its output: to a path derived from the
/// input path (with the extension exchanged), or to the given path.
#[derive(Clone, Debug, PartialEq, Eq)]
pub enum OutputTarget {
    DeriveFromInput,
    Path(String),
}

/// The character view of an optional string.
pub open spec fn option_string_view(o: Option<String>) -> Option<Seq<char>> {
    match o {
        Option::None => Option::None,
        Option::Some(s) => Option::Some(s@),
    }
}

/// The character view of a string result.
pub open spec fn result_string_view(r: Result<String, PathError>) -> Result<Seq<char>, PathError> {
    match r {
        Result::Ok(s) => Result::Ok(s@),
        Result::Err(e) => Result::Err(e),
    }
}

/// A directory path with a file name appended behind a slash.
pub open spec fn joined_path(dir: Seq<char>, name: Seq<char>) -> Seq<char> {
    dir + seq!['/'] + name
}

/// How an output path resolves: a path that names a directory has the
/// input file name appended, any other path is used as it is, and a
/// directory without a usable input file name is an error.
pub open spec fn resolved_output_path(
    output_path: Seq<char>,
    output_path_is_dir: bool,
    input_file_name: Option<Seq<char>>,
) -> Result<Seq<char>, PathError> {
    if !output_path_is_dir {
        Result::Ok(output_path)
    } else {
        match input_file_name {
            Option::Some(name) => Result::Ok(joined_path(output_path, name)),
            Option::None => Result::Err(PathError::MissingInputFileName),
        }
    }
}

/// If the output path is a directory, appends the input file name to it to
/// construct the full output file path; otherwise returns the output path
/// as it is.  The caller reports whether the output path names a
/// directory and which file name the input path carries.
pub fn process_output_path(
    output_path: String,
    output_path_is_dir: bool,
    input_file_name: Option<String>,
) -> (r: Result<String, PathError>)
    ensures
        result_string_view(r) == resolved_output_path(
            output_path@,
            output_path_is_dir,
            option_string_view(input_file_name),
        ),
{
    if output_path_is_dir {
        match input_file_name {
            Some(name) => {
                let ghost dir_chars = output_path@;
                let mut joined = output_path;
                joined.append("/");
                joined.append(name.as_str());
                proof {
                    reveal_strlit("/");
                    assert(("/")@ =~= seq!['/']);
                    assert(joined@ =~= joined_path(dir_chars, name@));
                }
                Ok(joined)
            },
            None => Err(PathError::MissingInputFileName),
        }
    } else {
        Ok(output_path)
    }
}

} // verus!
