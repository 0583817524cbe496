//! Mathematical models of the records that flow through the aggregator.
//! Contracts are stated over these: texts are sequences of characters and
//! lists are sequences.

use vstd::prelude::*;

verus! {

/// An identifier together with a display name: a stop or a route.
pub struct Named {
    pub id: Seq<char>,
    pub name: Seq<char>,
}

/// One expected arrival of a vehicle at a stop.
pub struct StopArrival {
    pub stop_id: Seq<char>,
    pub route_id: Seq<char>,
    pub route_label: Seq<char>,
    pub expected_arrival_time: Option<Seq<char>>,
    pub minutes_until_arrival: Option<i64>,
}

/// One monitored vehicle journey as the upstream service reports it.
pub struct Visit {
    pub expected_arrival_time: Option<Seq<char>>,
    pub line_ref: Seq<char>,
    pub direction_ref: Seq<char>,
    pub published_line_name: Seq<char>,
}

/// One upstream grouping of stops along a route, stops given by identifier.
pub struct StopIdGroup {
    pub id: Seq<char>,
    pub name: Seq<char>,
    pub stop_ids: Seq<Seq<char>>,
}

/// The upstream detail of a route: its stop groupings (each a list of
/// groups) and the stops and routes that the groupings refer to.
pub struct RouteDetail {
    pub groupings: Seq<Seq<StopIdGroup>>,
    pub stops: Seq<Named>,
    pub routes: Seq<Named>,
}

/// One directional grouping of stops along a route.
pub struct StopGroup {
    pub id: Seq<char>,
    pub name: Seq<char>,
    pub route_id: Seq<char>,
    pub route_name: Seq<char>,
    pub stops: Seq<Named>,
}

/// A stop near a location, with the identifiers of the routes serving it.
pub struct NearbyStop {
    pub id: Seq<char>,
    pub routes: Seq<Seq<char>>,
}

/// One suggestion of the places service.
pub struct Prediction {
    pub main_text: Seq<char>,
    pub secondary_text: Seq<char>,
    pub place_id: Seq<char>,
}

/// The models of the elements of a list.
pub open spec fn views<T: View>(list: Seq<T>) -> Seq<T::V> {
    Seq::new(list.len(), |i: int| list[i]@)
}

} // verus!
