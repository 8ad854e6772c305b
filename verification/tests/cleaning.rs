//! Tests of the cleaner, the path handling, the generated file names,
//! and the tools' command line decision cores.

use gpx_tools::gpx_clean::cleaner::{remove_non_ascii_chars, AsciiErrorStrategy, EncodingOption,
    VersionOption};
use gpx_tools::gpx_clean::cli::CleanOp;
use gpx_tools::gpx_reduce_points::cli::{AlgorithmOption, DEFAULT_RDP_EPSILON_BITS,
    DEFAULT_VW_EPSILON_BITS};
use gpx_tools::gpx_reduce_points::simplifier::SimplificationMethod;
use gpx_tools::gpx_split_file::splitter::{get_auto_path_for_route, get_auto_path_for_track,
    get_auto_path_for_waypoints, NamingStyle};
use gpx_tools::simplifier::DEFAULT_INITIAL_EPSILON_BITS;
use gpx_tools::util::{process_output_path, OutputTarget, PathError};

#[test]
fn non_ascii_bytes_are_dropped() {
    let mut text: Vec<u8> = vec![b'a', 0xC3, 0xA9, b'b', 0x7F, 0x80];
    remove_non_ascii_chars(&mut text, AsciiErrorStrategy::Ignore);
    assert_eq!(text, vec![b'a', b'b', 0x7F]);
}

#[test]
fn non_ascii_bytes_are_replaced_with_question_marks() {
    let mut text: Vec<u8> = vec![b'a', 0xC3, 0xA9, b'b'];
    remove_non_ascii_chars(&mut text, AsciiErrorStrategy::Replace);
    assert_eq!(text, vec![b'a', b'?', b'?', b'b']);
}

#[test]
fn ascii_text_is_left_alone_by_both_strategies() {
    for strategy in [AsciiErrorStrategy::Ignore, AsciiErrorStrategy::Replace] {
        let mut text: Vec<u8> = b"<gpx version=\"1.1\"/>".to_vec();
        remove_non_ascii_chars(&mut text, strategy);
        assert_eq!(text, b"<gpx version=\"1.1\"/>".to_vec());
    }
}

#[test]
fn output_path_is_kept_when_not_a_directory() {
    let r = process_output_path("out.gpx".to_string(), false, Some("in.gpx".to_string()));
    assert_eq!(r, Ok("out.gpx".to_string()));
}

#[test]
fn output_directory_gets_input_file_name_appended() {
    let r = process_output_path("outdir".to_string(), true, Some("in.gpx".to_string()));
    assert_eq!(r, Ok("outdir/in.gpx".to_string()));
}

#[test]
fn output_directory_without_input_file_name_is_an_error() {
    let r = process_output_path("outdir".to_string(), true, None);
    assert_eq!(r, Err(PathError::MissingInputFileName));
}

#[test]
fn track_file_names_follow_the_styles() {
    assert_eq!(get_auto_path_for_track(1, "Trip", NamingStyle::Spaces), "Trip Track 1.gpx");
    assert_eq!(get_auto_path_for_track(12, "Trip", NamingStyle::SnakeCase), "Trip_track_12.gpx");
    assert_eq!(get_auto_path_for_track(305, "Trip", NamingStyle::CamelCase), "TripTrack305.gpx");
}

#[test]
fn route_file_names_follow_the_styles() {
    assert_eq!(get_auto_path_for_route(2, "Trip", NamingStyle::Spaces), "Trip Route 2.gpx");
    assert_eq!(get_auto_path_for_route(40, "Trip", NamingStyle::SnakeCase), "Trip_route_40.gpx");
    assert_eq!(get_auto_path_for_route(7, "Trip", NamingStyle::CamelCase), "TripRoute7.gpx");
}

#[test]
fn waypoints_file_names_follow_the_styles() {
    assert_eq!(get_auto_path_for_waypoints("Trip", NamingStyle::Spaces), "Trip Waypoints.gpx");
    assert_eq!(get_auto_path_for_waypoints("Trip", NamingStyle::SnakeCase), "Trip_waypoints.gpx");
    assert_eq!(get_auto_path_for_waypoints("Trip", NamingStyle::CamelCase), "TripWaypoints.gpx");
}

#[test]
fn default_tolerances_encode_the_documented_values() {
    assert_eq!(DEFAULT_RDP_EPSILON_BITS, 0.001f64.to_bits());
    assert_eq!(DEFAULT_VW_EPSILON_BITS, 0.0001f64.to_bits());
    assert_eq!(DEFAULT_INITIAL_EPSILON_BITS, 0.005f64.to_bits());
    assert_eq!(2.0 * f64::from_bits(DEFAULT_INITIAL_EPSILON_BITS), 0.01);
}

fn clean_args() -> gpx_tools::gpx_clean::cli::Args {
    gpx_tools::gpx_clean::cli::Args {
        input_file_name: Some("in.gpx".to_string()),
        output_path: "out.gpx".to_string(),
        output_path_is_dir: false,
        quiet: false,
        encoding: EncodingOption::Ascii,
        strategy: AsciiErrorStrategy::Ignore,
        set_creator: None,
        set_version: VersionOption::V11,
        rename_tracks: false,
        remove_waypoints: false,
        remove_tracks: false,
        remove_routes: false,
        remove_metadata: false,
        remove_track_metadata: false,
        remove_route_metadata: false,
        remove_track_point_metadata: false,
        remove_route_point_metadata: false,
        remove_track_elevation: false,
        remove_route_elevation: false,
    }
}

#[test]
fn clean_plan_orders_operations_and_resolves_path() {
    let mut args = clean_args();
    args.set_creator = Some("someone".to_string());
    args.remove_waypoints = true;
    args.remove_route_metadata = true;
    args.rename_tracks = true;
    let plan = gpx_tools::gpx_clean::cli::run_cli(args).unwrap();
    assert_eq!(plan.output_path, "out.gpx");
    assert!(plan.to_ascii);
    assert_eq!(plan.ascii_strategy, AsciiErrorStrategy::Ignore);
    assert_eq!(
        plan.operations,
        vec![
            CleanOp::SetVersion(VersionOption::V11),
            CleanOp::SetCreator("someone".to_string()),
            CleanOp::RemoveWaypoints,
            CleanOp::RemoveRouteMetadata,
            CleanOp::RenameTracksInteractively,
        ]
    );
}

#[test]
fn clean_plan_runs_every_operation_in_the_fixed_order() {
    let mut args = clean_args();
    args.set_creator = Some("tool".to_string());
    args.remove_metadata = true;
    args.remove_waypoints = true;
    args.remove_tracks = true;
    args.remove_routes = true;
    args.remove_track_metadata = true;
    args.remove_route_metadata = true;
    args.remove_track_point_metadata = true;
    args.remove_route_point_metadata = true;
    args.remove_track_elevation = true;
    args.remove_route_elevation = true;
    args.rename_tracks = true;
    let plan = gpx_tools::gpx_clean::cli::run_cli(args).unwrap();
    assert_eq!(
        plan.operations,
        vec![
            CleanOp::SetVersion(VersionOption::V11),
            CleanOp::SetCreator("tool".to_string()),
            CleanOp::RemoveMetadata,
            CleanOp::RemoveWaypoints,
            CleanOp::RemoveTracks,
            CleanOp::RemoveRoutes,
            CleanOp::RemoveTrackMetadata,
            CleanOp::RemoveRouteMetadata,
            CleanOp::RemoveTrackPointMetadata,
            CleanOp::RemoveRoutePointMetadata,
            CleanOp::RemoveTrackElevation,
            CleanOp::RemoveRouteElevation,
            CleanOp::RenameTracksInteractively,
        ]
    );
}

#[test]
fn clean_plan_reports_missing_input_file_name() {
    let mut args = clean_args();
    args.output_path_is_dir = true;
    args.input_file_name = None;
    let r = gpx_tools::gpx_clean::cli::run_cli(args);
    assert!(matches!(r, Err(PathError::MissingInputFileName)));
}

#[test]
fn reduce_points_plan_uses_algorithm_defaults() {
    let args = gpx_tools::gpx_reduce_points::cli::Args {
        input_file_name: Some("in.gpx".to_string()),
        output_path: "dir".to_string(),
        output_path_is_dir: true,
        max_points: 500,
        max_iterations: 12,
        algorithm: AlgorithmOption::Vw,
        epsilon_bits: None,
        quiet: true,
    };
    let plan = gpx_tools::gpx_reduce_points::cli::run_cli(args).unwrap();
    assert_eq!(plan.output_path, "dir/in.gpx");
    assert_eq!(plan.config.max_points, 500);
    assert_eq!(plan.config.max_iterations, 12);
    assert_eq!(plan.config.method, SimplificationMethod::VisvalingamWhyatt);
    assert_eq!(plan.config.initial_epsilon_bits, 0.0001f64.to_bits());
}

#[test]
fn reduce_points_plan_keeps_a_given_tolerance() {
    let args = gpx_tools::gpx_reduce_points::cli::Args {
        input_file_name: None,
        output_path: "out.gpx".to_string(),
        output_path_is_dir: false,
        max_points: 100,
        max_iterations: 20,
        algorithm: AlgorithmOption::Rdp,
        epsilon_bits: Some(0.5f64.to_bits()),
        quiet: false,
    };
    let plan = gpx_tools::gpx_reduce_points::cli::run_cli(args).unwrap();
    assert_eq!(plan.config.method, SimplificationMethod::RamerDouglasPeucker);
    assert_eq!(plan.config.initial_epsilon_bits, 0.5f64.to_bits());
}

#[test]
fn merge_files_plan_negates_the_no_flags() {
    let args = gpx_tools::gpx_merge_files::cli::Args {
        master_file_name: None,
        output_path: "merged.gpx".to_string(),
        output_path_is_dir: false,
        quiet: false,
        no_routes: true,
        no_tracks: false,
        no_waypoints: true,
    };
    let plan = gpx_tools::gpx_merge_files::cli::run_cli(args).unwrap();
    assert!(plan.merge_tracks);
    assert!(!plan.merge_routes);
    assert!(!plan.merge_waypoints);
}

#[test]
fn split_file_plan_requires_a_directory() {
    let args = gpx_tools::gpx_split_file::cli::Args {
        output_folder_is_dir: false,
        quiet: false,
        keep_metadata: false,
        naming_style: NamingStyle::Spaces,
        base_file_name: None,
        input_file_stem: Some("trip".to_string()),
    };
    let r = gpx_tools::gpx_split_file::cli::run_cli(args);
    assert!(matches!(r, Err(PathError::OutputPathIsNotFolder)));
}

#[test]
fn split_file_plan_falls_back_to_the_input_stem() {
    let args = gpx_tools::gpx_split_file::cli::Args {
        output_folder_is_dir: true,
        quiet: false,
        keep_metadata: true,
        naming_style: NamingStyle::SnakeCase,
        base_file_name: None,
        input_file_stem: Some("trip".to_string()),
    };
    let plan = gpx_tools::gpx_split_file::cli::run_cli(args).unwrap();
    assert_eq!(plan.base_file_name, "trip");
    assert!(plan.keep_metadata);
    assert_eq!(plan.naming_style, NamingStyle::SnakeCase);
}

#[test]
fn to_kml_plan_derives_output_from_input_without_a_path() {
    let args = gpx_tools::gpx_to_kml::cli::Args {
        input_file_name: Some("in.gpx".to_string()),
        output_path: None,
        output_path_is_dir: false,
        quiet: false,
        line_color: "#FF4136FF".to_string(),
        line_width_bits: 1.0f64.to_bits(),
    };
    let plan = gpx_tools::gpx_to_kml::cli::run_cli(args).unwrap();
    assert_eq!(plan.output, OutputTarget::DeriveFromInput);
    assert_eq!(plan.line_color, "#FF4136FF");
    assert_eq!(plan.line_width_bits, 1.0f64.to_bits());
}

#[test]
fn kml_to_gpx_plan_resolves_a_given_directory() {
    let args = gpx_tools::kml_to_gpx::cli::Args {
        input_file_name: Some("in.kml".to_string()),
        output_path: Some("outdir".to_string()),
        output_path_is_dir: true,
        quiet: true,
    };
    let plan = gpx_tools::kml_to_gpx::cli::run_cli(args).unwrap();
    assert_eq!(plan.output, OutputTarget::Path("outdir/in.kml".to_string()));
    assert!(plan.quiet);
}

#[test]
fn info_plan_passes_the_arguments_through() {
    let args = gpx_tools::gpx_info::cli::Args {
        input_path: "trip.gpx".to_string(),
        verbose: true,
    };
    let plan = gpx_tools::gpx_info::cli::run_cli(args);
    assert_eq!(plan.input_path, "trip.gpx");
    assert!(plan.verbose);
}

#[test]
fn minify_plan_resolves_the_output_path() {
    let args = gpx_tools::gpx_minify::cli::Args {
        input_file_name: Some("big.gpx".to_string()),
        output_path: "small".to_string(),
        output_path_is_dir: true,
        quiet: false,
    };
    let plan = gpx_tools::gpx_minify::cli::run_cli(args).unwrap();
    assert_eq!(plan.output_path, "small/big.gpx");
}

#[test]
fn merge_tracks_plan_carries_the_merged_name() {
    let args = gpx_tools::gpx_merge_tracks::cli::Args {
        input_file_name: None,
        output_path: "out.gpx".to_string(),
        output_path_is_dir: false,
        quiet: false,
        name: "All In One".to_string(),
    };
    let plan = gpx_tools::gpx_merge_tracks::cli::run_cli(args).unwrap();
    assert_eq!(plan.merged_track_name, "All In One");
}

#[test]
fn routes_to_tracks_plan_keeps_the_flag() {
    let args = gpx_tools::gpx_routes_to_tracks::cli::Args {
        input_file_name: Some("r.gpx".to_string()),
        output_path: "out.gpx".to_string(),
        output_path_is_dir: false,
        quiet: false,
        keep_routes: true,
    };
    let plan = gpx_tools::gpx_routes_to_tracks::cli::run_cli(args).unwrap();
    assert!(plan.keep_routes);
}

#[test]
fn reverse_tracks_plan_keeps_the_strategy() {
    let args = gpx_tools::gpx_reverse_tracks::cli::Args {
        input_file_name: Some("in.gpx".to_string()),
        output_path: "out.gpx".to_string(),
        output_path_is_dir: false,
        quiet: false,
        rename_strategy: gpx_tools::gpx_reverse_tracks::reverser::RenameStrategy::Suffix,
        keep_original: true,
    };
    let plan = gpx_tools::gpx_reverse_tracks::cli::run_cli(args).unwrap();
    assert_eq!(
        plan.rename_strategy,
        gpx_tools::gpx_reverse_tracks::reverser::RenameStrategy::Suffix
    );
    assert!(plan.keep_original);
}
