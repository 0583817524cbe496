//! The stops-for-route reply: the route's stop groupings and the stops and
//! routes that they refer to.

use vstd::prelude::*;
use crate::model::{views, Named, RouteDetail, StopIdGroup};

verus! {

/// A stop that the groupings may refer to.
pub struct GetStopsForRouteResponseDataReferencesStop {
    pub id: String,
    pub name: String,
}

impl View for GetStopsForRouteResponseDataReferencesStop {
    type V = Named;

    open spec fn view(&self) -> Named {
        Named { id: self.id@, name: self.name@ }
    }
}

/// A route that the reply refers to.
#[allow(non_snake_case)]
pub struct GetStopsForRouteResponseDataReferencesRoute {
    pub id: String,
    pub shortName: String,
}

impl View for GetStopsForRouteResponseDataReferencesRoute {
    type V = Named;

    open spec fn view(&self) -> Named {
        Named { id: self.id@, name: self.shortName@ }
    }
}

/// The reference section: all stops and all routes.
pub struct GetStopsForRouteResponseDataReferences {
    pub stops: Vec<GetStopsForRouteResponseDataReferencesStop>,
    pub routes: Vec<GetStopsForRouteResponseDataReferencesRoute>,
}

impl View for GetStopsForRouteResponseDataReferences {
    type V = (Seq<Named>, Seq<Named>);

    open spec fn view(&self) -> (Seq<Named>, Seq<Named>) {
        (views(self.stops@), views(self.routes@))
    }
}

/// The name of a stop group.
pub struct GetStopsForRouteResponseDataEntryStopGroupingStopGroupName {
    pub name: String,
}

impl View for GetStopsForRouteResponseDataEntryStopGroupingStopGroupName {
    type V = Seq<char>;

    open spec fn view(&self) -> Seq<char> {
        self.name@
    }
}

/// A stop group: its stops by identifier, in travel order.
#[allow(non_snake_case)]
pub struct GetStopsForRouteResponseDataEntryStopGroupingStopGroup {
    pub id: String,
    pub name: GetStopsForRouteResponseDataEntryStopGroupingStopGroupName,
    pub stopIds: Vec<String>,
}

impl View for GetStopsForRouteResponseDataEntryStopGroupingStopGroup {
    type V = StopIdGroup;

    open spec fn view(&self) -> StopIdGroup {
        StopIdGroup { id: self.id@, name: self.name@, stop_ids: views(self.stopIds@) }
    }
}

/// What a grouping groups by.
#[derive(Clone, Copy, Debug, PartialEq, Eq, Structural)]
pub enum GetStopsForRouteResponseDataEntryStopGroupingType {
    Direction,
}

/// A grouping: a type tag and its stop groups.
#[allow(non_snake_case)]
pub struct GetStopsForRouteResponseDataEntryStopGrouping {
    pub kind: GetStopsForRouteResponseDataEntryStopGroupingType,
    pub stopGroups: Vec<GetStopsForRouteResponseDataEntryStopGroupingStopGroup>,
}

impl View for GetStopsForRouteResponseDataEntryStopGrouping {
    type V = Seq<StopIdGroup>;

    open spec fn view(&self) -> Seq<StopIdGroup> {
        views(self.stopGroups@)
    }
}

/// The entry of the route: its groupings.
#[allow(non_snake_case)]
pub struct GetStopsForRouteResponseDataEntry {
    pub stopGroupings: Vec<GetStopsForRouteResponseDataEntryStopGrouping>,
}

impl View for GetStopsForRouteResponseDataEntry {
    type V = Seq<Seq<StopIdGroup>>;

    open spec fn view(&self) -> Seq<Seq<StopIdGroup>> {
        views(self.stopGroupings@)
    }
}

/// Entry and references together.
pub struct GetStopsForRouteResponseData {
    pub references: GetStopsForRouteResponseDataReferences,
    pub entry: GetStopsForRouteResponseDataEntry,
}

impl View for GetStopsForRouteResponseData {
    type V = RouteDetail;

    open spec fn view(&self) -> RouteDetail {
        RouteDetail {
            groupings: self.entry@,
            stops: self.references@.0,
            routes: self.references@.1,
        }
    }
}

/// The whole stops-for-route reply.
pub struct GetStopsForRouteResponse {
    pub data: GetStopsForRouteResponseData,
}

impl View for GetStopsForRouteResponse {
    type V = RouteDetail;

    open spec fn view(&self) -> RouteDetail {
        self.data@
    }
}

} // verus!
