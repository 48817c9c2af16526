//! Route-based place discovery for a mapping/places client.
//!
//! The heart of the crate is the route pipeline: decode a compressed
//! polyline into geographic points (`polyline`), resample the path into
//! evenly spaced waypoints by cumulative ground distance (`sampler`),
//! and run one place search per waypoint while isolating per-waypoint
//! failures (`route`). Coordinates are carried as integers in units of
//! 1e-5 degree, the resolution of the polyline wire format; ground
//! distances are integer millimetres handed in by the caller's distance
//! model.

mod config;
mod errors;
mod polyline;
mod route;
mod sampler;
mod text;
mod types;
mod ui;

pub use config::config_file_path;
pub use config::config_file_path_under;
pub use errors::Error;
pub use errors::as_provider_error;
pub use errors::is_api_error;
pub use errors::is_validation_error;
pub use errors::normalized_provider_error;
pub use polyline::decode_polyline;
pub use polyline::decode_spec;
pub use route::DirectionsProvider;
pub use route::DistanceModel;
pub use route::PlaceSearchProvider;
pub use route::RouteRequest;
pub use route::RouteSearchResponse;
pub use route::RouteWaypointResult;
pub use route::WaypointQuery;
pub use route::assemble_route_response;
pub use route::collect_waypoint_result;
pub use route::route_path_from_polyline;
pub use route::route_points_from_directions;
pub use route::route_polyline_result;
pub use route::route_search;
pub use route::segment_distances;
pub use route::waypoint_query;
pub use sampler::MAX_SEGMENTS;
pub use sampler::MAX_SEGMENT_MM;
pub use sampler::MAX_WAYPOINT_COUNT;
pub use sampler::coord_between;
pub use sampler::dist_sum;
pub use sampler::lemma_dist_sum_mono;
pub use sampler::lemma_waypoint_on_segment;
pub use sampler::lemma_waypoint_spacing;
pub use sampler::sample_spec;
pub use sampler::sample_waypoints;
pub use sampler::segment_index;
pub use sampler::target_dist;
pub use sampler::total_dist;
pub use sampler::waypoint_at;
pub use text::char_utf8_len;
pub use text::truncate;
pub use text::truncate_keep;
pub use text::truncate_spec;
pub use text::utf8_len_of;
pub use types::AuthorAttribution;
pub use types::AutocompleteResponse;
pub use types::DetailsRequest;
pub use types::DisplayName;
pub use types::EditorialSummary;
pub use types::FormattedText;
pub use types::LatLngE5;
pub use types::LocalizedText;
pub use types::OpeningHours;
pub use types::Photo;
pub use types::PhotoMediaRequest;
pub use types::PhotoMediaResponse;
pub use types::PlacePrediction;
pub use types::QueryPrediction;
pub use types::ResolveRequest;
pub use types::StructuredFormat;
pub use types::Suggestion;
pub use types::TextMatch;
pub use types::TravelMode;
pub use types::price_level_api_str;
pub use types::price_level_display;
pub use types::price_level_display_spec;
pub use types::price_level_to_api;
pub use types::travel_mode_api_str;
pub use ui::FilterField;
pub use ui::Focus;
pub use ui::filter_field_at;
