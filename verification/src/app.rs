//! The configuration of the application and the state built from it.

use vstd::prelude::*;
use crate::maps_service::{MapsService, MapsServiceConfig};
use crate::text::{clone_optional_text, optional_text};
use crate::transit_service::{TransitService, TransitServiceConfig};

verus! {

/// Everything the application is configured with.
pub struct AppConfig {
    pub mta_host: String,
    pub mta_key: String,
    pub google_maps_host: String,
    pub google_maps_key: String,
    pub auth_key: Option<String>,
}

/// What every request handler shares.
pub struct AppState {
    pub transit_service: TransitService,
    pub maps_service: MapsService,
    pub auth_key: Option<String>,
}

impl AppState {
    /// The state for a configuration: the two services, each for its host
    /// and key, and the key that requests must present.
    pub fn new(config: &AppConfig) -> (state: Self)
        ensures
            state.transit_service.host() == config.mta_host@,
            state.transit_service.api_key() == config.mta_key@,
            state.transit_service.maps().host() == config.google_maps_host@,
            state.transit_service.maps().api_key() == config.google_maps_key@,
            state.maps_service.host() == config.google_maps_host@,
            state.maps_service.api_key() == config.google_maps_key@,
            optional_text(state.auth_key) == optional_text(config.auth_key),
    {
        let maps_service = MapsService::new(
            MapsServiceConfig {
                api_key: config.google_maps_key.clone(),
                host: config.google_maps_host.clone(),
            },
        );
        let transit_service = TransitService::new(
            TransitServiceConfig {
                host: config.mta_host.clone(),
                api_key: config.mta_key.clone(),
                maps_service: maps_service.duplicate(),
            },
        );
        AppState { transit_service, maps_service, auth_key: clone_optional_text(&config.auth_key) }
    }
}

} // verus!
