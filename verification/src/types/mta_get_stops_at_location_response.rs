//! The stops-for-location reply: the stops near a point, each with the routes
//! that serve it.

use vstd::prelude::*;
use crate::model::{views, NearbyStop};

verus! {

/// A route serving a nearby stop.
pub struct StopAtLocationRoute {
    pub id: String,
}

impl View for StopAtLocationRoute {
    type V = Seq<char>;

    open spec fn view(&self) -> Seq<char> {
        self.id@
    }
}

/// A stop near the queried point.
pub struct StopAtLocation {
    pub id: String,
    pub routes: Vec<StopAtLocationRoute>,
}

impl View for StopAtLocation {
    type V = NearbyStop;

    open spec fn view(&self) -> NearbyStop {
        NearbyStop { id: self.id@, routes: views(self.routes@) }
    }
}

/// The nearby stops, in upstream order.
pub struct GetStopsAtLocationResponseStops {
    pub stops: Vec<StopAtLocation>,
}

impl View for GetStopsAtLocationResponseStops {
    type V = Seq<NearbyStop>;

    open spec fn view(&self) -> Seq<NearbyStop> {
        views(self.stops@)
    }
}

/// The whole stops-for-location reply.
pub struct GetStopsAtLocationResponse {
    pub data: GetStopsAtLocationResponseStops,
}

impl View for GetStopsAtLocationResponse {
    type V = Seq<NearbyStop>;

    open spec fn view(&self) -> Seq<NearbyStop> {
        self.data@
    }
}

} // verus!
