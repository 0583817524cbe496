//! The shapes of the upstream services' replies, after decoding.

pub mod google_autocomplete_response;
pub mod lat_long_location;
pub mod mta_get_routes_response;
pub mod mta_get_stops_at_location_response;
pub mod mta_get_stops_for_route_response;
pub mod response_formats;
