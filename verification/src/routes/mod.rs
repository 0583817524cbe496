//! What each endpoint of the boundary computes: the request parameters it
//! reads and the reply it builds from what the services found.

pub mod get_location_search_autocomplete;
pub mod get_transit_arrival_times;
pub mod get_transit_routes;
pub mod get_transit_stops_at_location;
pub mod get_transit_stops_for_route;
