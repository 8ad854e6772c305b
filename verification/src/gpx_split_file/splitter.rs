//! File names for the pieces a GPX file is split into: one file per
//! track, one per route, and one for all waypoints, named after the base
//! file name in one of three styles.

use vstd::prelude::*;
use vstd::string::StringExecFns;

verus! {

/// The naming style of automatically generated file names.
#[derive(Clone, Copy, Debug, PartialEq, Eq, Structural)]
pub enum NamingStyle {
    /// Words separated by spaces.
    Spaces,
    /// Lower-case words separated by underscores.
    SnakeCase,
    /// Words joined with capital initials.
    CamelCase,
}

/// The decimal digit character for a value between zero and nine.
pub open spec fn decimal_digit(d: int) -> char {
    if d == 0 {
        '0'
    } else if d == 1 {
        '1'
    } else if d == 2 {
        '2'
    } else if d == 3 {
        '3'
    } else if d == 4 {
        '4'
    } else if d == 5 {
        '5'
    } else if d == 6 {
        '6'
    } else if d == 7 {
        '7'
    } else if d == 8 {
        '8'
    } else {
        '9'
    }
}

/// The decimal notation of a nonnegative integer, without leading zeros.
pub open spec fn decimal_string(n: int) -> Seq<char>
    decreases n,
{
    if n < 10 {
        seq![decimal_digit(n)]
    } else {
        decimal_string(n / 10).push(decimal_digit(n % 10))
    }
}

/// Appends one decimal digit character to `s`.
fn push_digit(d: usize, s: &mut String)
    requires
        d < 10,
    ensures
        final(s)@ == old(s)@ + seq![decimal_digit(d as int)],
{
    let ghost before = s@;
    if d == 0 {
        s.append("0");
        proof {
            reveal_strlit("0");
            assert(s@ =~= before + seq![decimal_digit(d as int)]);
        }
    } else if d == 1 {
        s.append("1");
        proof {
            reveal_strlit("1");
            assert(s@ =~= before + seq![decimal_digit(d as int)]);
        }
    } else if d == 2 {
        s.append("2");
        proof {
            reveal_strlit("2");
            assert(s@ =~= before + seq![decimal_digit(d as int)]);
        }
    } else if d == 3 {
        s.append("3");
        proof {
            reveal_strlit("3");
            assert(s@ =~= before + seq![decimal_digit(d as int)]);
        }
    } else if d == 4 {
        s.append("4");
        proof {
            reveal_strlit("4");
            assert(s@ =~= before + seq![decimal_digit(d as int)]);
        }
    } else if d == 5 {
        s.append("5");
        proof {
            reveal_strlit("5");
            assert(s@ =~= before + seq![decimal_digit(d as int)]);
        }
    } else if d == 6 {
        s.append("6");
        proof {
            reveal_strlit("6");
            assert(s@ =~= before + seq![decimal_digit(d as int)]);
        }
    } else if d == 7 {
        s.append("7");
        proof {
            reveal_strlit("7");
            assert(s@ =~= before + seq![decimal_digit(d as int)]);
        }
    } else if d == 8 {
        s.append("8");
        proof {
            reveal_strlit("8");
            assert(s@ =~= before + seq![decimal_digit(d as int)]);
        }
    } else {
        s.append("9");
        proof {
            reveal_strlit("9");
            assert(s@ =~= before + seq![decimal_digit(d as int)]);
        }
    }
}

/// Appends the decimal notation of `n` to `s`.
fn push_decimal(n: usize, s: &mut String)
    ensures
        final(s)@ == old(s)@ + decimal_string(n as int),
    decreases n,
{
    if n >= 10 {
        push_decimal(n / 10, s);
    }
    push_digit(n % 10, s);
    proof {
        assert(s@ =~= old(s)@ + decimal_string(n as int));
    }
}

/// The file name of the split-out track with the given (one-based)
/// number.
pub open spec fn track_file_name(base: Seq<char>, number: int, style: NamingStyle) -> Seq<char> {
    match style {
        NamingStyle::Spaces => base + (" Track ")@ + decimal_string(number) + (".gpx")@,
        NamingStyle::SnakeCase => base + ("_track_")@ + decimal_string(number) + (".gpx")@,
        NamingStyle::CamelCase => base + ("Track")@ + decimal_string(number) + (".gpx")@,
    }
}

/// The file name of the split-out route with the given (one-based)
/// number.
pub open spec fn route_file_name(base: Seq<char>, number: int, style: NamingStyle) -> Seq<char> {
    match style {
        NamingStyle::Spaces => base + (" Route ")@ + decimal_string(number) + (".gpx")@,
        NamingStyle::SnakeCase => base + ("_route_")@ + decimal_string(number) + (".gpx")@,
        NamingStyle::CamelCase => base + ("Route")@ + decimal_string(number) + (".gpx")@,
    }
}

/// The file name of the split-out waypoints file.
pub open spec fn waypoints_file_name(base: Seq<char>, style: NamingStyle) -> Seq<char> {
    match style {
        NamingStyle::Spaces => base + (" Waypoints.gpx")@,
        NamingStyle::SnakeCase => base + ("_waypoints.gpx")@,
        NamingStyle::CamelCase => base + ("Waypoints.gpx")@,
    }
}

/// Builds the file name for one split-out track.
pub fn get_auto_path_for_track(track_number: usize, base_file_name: &str, naming_style:
    NamingStyle) -> (r: String)
    ensures
        r@ == track_file_name(base_file_name@, track_number as int, naming_style),
{
    let mut s = String::from_str(base_file_name);
    match naming_style {
        NamingStyle::Spaces => {
            s.append(" Track ");
        },
        NamingStyle::SnakeCase => {
            s.append("_track_");
        },
        NamingStyle::CamelCase => {
            s.append("Track");
        },
    }
    push_decimal(track_number, &mut s);
    s.append(".gpx");
    s
}

/// Builds the file name for one split-out route.
pub fn get_auto_path_for_route(route_number: usize, base_file_name: &str, naming_style:
    NamingStyle) -> (r: String)
    ensures
        r@ == route_file_name(base_file_name@, route_number as int, naming_style),
{
    let mut s = String::from_str(base_file_name);
    match naming_style {
        NamingStyle::Spaces => {
            s.append(" Route ");
        },
        NamingStyle::SnakeCase => {
            s.append("_route_");
        },
        NamingStyle::CamelCase => {
            s.append("Route");
        },
    }
    push_decimal(route_number, &mut s);
    s.append(".gpx");
    s
}

/// Builds the file name for the split-out waypoints.
pub fn get_auto_path_for_waypoints(base_file_name: &str, naming_style: NamingStyle) -> (r: String)
    ensures
        r@ == waypoints_file_name(base_file_name@, naming_style),
{
    let mut s = String::from_str(base_file_name);
    match naming_style {
        NamingStyle::Spaces => {
            s.append(" Waypoints.gpx");
        },
        NamingStyle::SnakeCase => {
            s.append("_waypoints.gpx");
        },
        NamingStyle::CamelCase => {
            s.append("Waypoints.gpx");
        },
    }
    s
}

} // verus!
