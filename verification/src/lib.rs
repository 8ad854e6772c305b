pub mod assembly;
pub mod counting;
pub mod epsilon_search;
pub mod gpx_clean;
pub mod gpx_info;
pub mod gpx_merge_files;
pub mod gpx_merge_tracks;
pub mod gpx_minify;
pub mod gpx_model;
pub mod gpx_reduce_points;
pub mod gpx_reverse_tracks;
pub mod gpx_routes_to_tracks;
pub mod gpx_split_file;
pub mod gpx_to_kml;
pub mod kml_to_gpx;
pub mod simplifier;
pub mod util;
