//! The records that the transit service hands to its callers.

use vstd::prelude::*;
use crate::model::{views, Named, StopArrival, StopGroup};
use crate::text::{clone_optional_text, optional_text};

verus! {

/// One expected arrival of a vehicle at a stop. The minutes are derived from
/// the expected time; they are absent where that time is absent or unreadable.
pub struct StopInformation {
    pub expected_arrival_time: Option<String>,
    pub minutes_until_arrival: Option<i64>,
    pub stop_id: String,
    pub route_label: String,
    pub route_id: String,
}

impl View for StopInformation {
    type V = StopArrival;

    open spec fn view(&self) -> StopArrival {
        StopArrival {
            stop_id: self.stop_id@,
            route_id: self.route_id@,
            route_label: self.route_label@,
            expected_arrival_time: optional_text(self.expected_arrival_time),
            minutes_until_arrival: self.minutes_until_arrival,
        }
    }
}

impl StopInformation {
    /// A copy of the record.
    pub fn duplicate(&self) -> (copy: StopInformation)
        ensures
            copy@ == self@,
    {
        StopInformation {
            expected_arrival_time: clone_optional_text(&self.expected_arrival_time),
            minutes_until_arrival: self.minutes_until_arrival,
            stop_id: self.stop_id.clone(),
            route_label: self.route_label.clone(),
            route_id: self.route_id.clone(),
        }
    }
}

/// A route found by a search.
pub struct FindTransitRoutesResultRoute {
    pub id: String,
    pub name: String,
}

impl View for FindTransitRoutesResultRoute {
    type V = Named;

    open spec fn view(&self) -> Named {
        Named { id: self.id@, name: self.name@ }
    }
}

/// The routes found by a search, in upstream order.
pub struct FindTransitRoutesResult {
    pub routes: Vec<FindTransitRoutesResultRoute>,
}

impl View for FindTransitRoutesResult {
    type V = Seq<Named>;

    open spec fn view(&self) -> Seq<Named> {
        views(self.routes@)
    }
}

/// A stop within a group.
pub struct GetStopsForRouteResultGroupStop {
    pub id: String,
    pub name: String,
}

impl View for GetStopsForRouteResultGroupStop {
    type V = Named;

    open spec fn view(&self) -> Named {
        Named { id: self.id@, name: self.name@ }
    }
}

/// One directional grouping of stops along a route. The group owns its stops.
pub struct GetStopsForRouteResultGroup {
    pub id: String,
    pub name: String,
    pub route_id: String,
    pub route_name: String,
    pub stops: Vec<GetStopsForRouteResultGroupStop>,
}

impl View for GetStopsForRouteResultGroup {
    type V = StopGroup;

    open spec fn view(&self) -> StopGroup {
        StopGroup {
            id: self.id@,
            name: self.name@,
            route_id: self.route_id@,
            route_name: self.route_name@,
            stops: views(self.stops@),
        }
    }
}

/// The groups of one route, in upstream order.
pub struct GetStopsForRouteResult {
    pub groups: Vec<GetStopsForRouteResultGroup>,
}

impl View for GetStopsForRouteResult {
    type V = Seq<StopGroup>;

    open spec fn view(&self) -> Seq<StopGroup> {
        views(self.groups@)
    }
}

/// The groups of all routes near a location, each reduced to the nearby stops.
pub struct GetGroupedStopsAtLocation {
    pub groups: Vec<GetStopsForRouteResultGroup>,
}

impl View for GetGroupedStopsAtLocation {
    type V = Seq<StopGroup>;

    open spec fn view(&self) -> Seq<StopGroup> {
        views(self.groups@)
    }
}

} // verus!
