//! How a caller names a location.

use vstd::prelude::*;

verus! {

/// A location: either coordinates, or the identifier of a place that the
/// places service must first resolve to coordinates.
pub enum GetStopsAtLocationInput {
    /// Latitude and longitude, as the caller wrote them.
    LatLong(String, String),
    /// An opaque place identifier.
    GooglePlaceId(String),
}

/// Model of a [`GetStopsAtLocationInput`].
pub enum LocationQuery {
    Coordinates(Seq<char>, Seq<char>),
    Place(Seq<char>),
}

impl View for GetStopsAtLocationInput {
    type V = LocationQuery;

    open spec fn view(&self) -> LocationQuery {
        match self {
            GetStopsAtLocationInput::LatLong(lat, lon) => LocationQuery::Coordinates(lat@, lon@),
            GetStopsAtLocationInput::GooglePlaceId(id) => LocationQuery::Place(id@),
        }
    }
}

} // verus!
