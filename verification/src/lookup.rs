//! Finding the routes and stops near a location, step by step: each step
//! takes what came back from the last request and says what to request next.

use vstd::prelude::*;
use vstd::string::*;
use crate::errors::{TransitClientError, TransitClientErrorView};
use crate::grouping::{group_stops_for_route, route_groups};
use crate::json::JsonValue;
use crate::location::{
    collect_route_ids,
    collect_stop_ids,
    group_nearby_stops,
    nearby_parts,
    nearby_route_ids,
    nearby_stop_ids,
    route_results,
};
use crate::maps_service::{coordinates_outcome, place_details_address};
use crate::model::{views, StopGroup};
use crate::records::{GetGroupedStopsAtLocation, GetStopsForRouteResult};
use crate::transit_service::{stops_for_location_address, stops_for_route_address, TransitService};
use crate::types::lat_long_location::GetStopsAtLocationInput;
use crate::types::mta_get_stops_at_location_response::GetStopsAtLocationResponse;
use crate::types::mta_get_stops_for_route_response::GetStopsForRouteResponse;
use crate::upstream::{outcome_view, Checked, Fetched};

verus! {

/// How far a lookup has come.
pub enum LocationLookup {
    /// Nothing has been requested yet.
    Idle,
    /// The details of a place have been requested.
    ResolvingPlace,
    /// The stops near the coordinates have been requested.
    FindingStops,
    /// The stops of the nearby routes have been requested, route by route in
    /// the order of `route_ids`; `stop_ids` are the nearby stops.
    FetchingRoutes { stop_ids: Vec<String>, route_ids: Vec<String> },
    /// The lookup has ended.
    Finished,
}

/// Model of a [`LocationLookup`].
pub enum LocationLookupView {
    Idle,
    ResolvingPlace,
    FindingStops,
    FetchingRoutes { stop_ids: Seq<Seq<char>>, route_ids: Seq<Seq<char>> },
    Finished,
}

impl View for LocationLookup {
    type V = LocationLookupView;

    open spec fn view(&self) -> LocationLookupView {
        match self {
            LocationLookup::Idle => LocationLookupView::Idle,
            LocationLookup::ResolvingPlace => LocationLookupView::ResolvingPlace,
            LocationLookup::FindingStops => LocationLookupView::FindingStops,
            LocationLookup::FetchingRoutes { stop_ids, route_ids } => {
                LocationLookupView::FetchingRoutes {
                    stop_ids: views(stop_ids@),
                    route_ids: views(route_ids@),
                }
            },
            LocationLookup::Finished => LocationLookupView::Finished,
        }
    }
}

/// What has happened: the lookup was started, or a request was answered.
pub enum LookupEvent {
    /// The caller asks for the routes and stops near a location.
    Begin(GetStopsAtLocationInput),
    /// The reply to the place-details call.
    PlaceDetails(Fetched<JsonValue>),
    /// The reply to the stops-for-location call.
    NearbyStops(Fetched<GetStopsAtLocationResponse>),
    /// The replies to the stops-for-route calls, in the order of the requests.
    Routes(Vec<Checked<GetStopsForRouteResponse>>),
}

/// What to do next.
pub enum LookupAction {
    /// Call the places service at this address.
    FetchPlaceDetails(String),
    /// Call the transit service at this address for the nearby stops.
    FetchNearbyStops(String),
    /// Call the transit service at each of these addresses, one per route.
    FetchRoutes(Vec<String>),
    /// Hand the outcome to the caller.
    Finish(Result<GetGroupedStopsAtLocation, TransitClientError>),
}

/// Model of a [`LookupAction`].
pub enum LookupActionView {
    FetchPlaceDetails(Seq<char>),
    FetchNearbyStops(Seq<char>),
    FetchRoutes(Seq<Seq<char>>),
    Finish(Result<Seq<StopGroup>, TransitClientErrorView>),
}

impl View for LookupAction {
    type V = LookupActionView;

    open spec fn view(&self) -> LookupActionView {
        match self {
            LookupAction::FetchPlaceDetails(url) => LookupActionView::FetchPlaceDetails(url@),
            LookupAction::FetchNearbyStops(url) => LookupActionView::FetchNearbyStops(url@),
            LookupAction::FetchRoutes(urls) => LookupActionView::FetchRoutes(views(urls@)),
            LookupAction::Finish(outcome) => LookupActionView::Finish(outcome_view(*outcome)),
        }
    }
}

/// The addresses of the stops-for-route calls for the given routes.
pub open spec fn route_addresses(
    host: Seq<char>,
    api_key: Seq<char>,
    route_ids: Seq<Seq<char>>,
) -> Seq<Seq<char>> {
    Seq::new(route_ids.len(), |i: int| stops_for_route_address(host, api_key, route_ids[i]))
}

/// The failure of the first route, in request order, whose reply is a failure.
pub open spec fn first_route_failure(replies: Seq<Checked<GetStopsForRouteResponse>>) -> Option<
    TransitClientErrorView,
>
    decreases replies.len(),
{
    if replies.len() == 0 {
        None
    } else {
        match replies.first().accepted_or_not_found() {
            Err(error) => Some(error),
            Ok(_) => first_route_failure(replies.drop_first()),
        }
    }
}

/// The groups of each route as its reply describes them, route by route;
/// none for a reply that is a failure.
pub open spec fn fetched_groups(
    route_ids: Seq<Seq<char>>,
    replies: Seq<Checked<GetStopsForRouteResponse>>,
) -> Seq<Seq<StopGroup>> {
    Seq::new(
        replies.len(),
        |i: int|
            match replies[i].accepted_or_not_found() {
                Ok(body) => route_groups(route_ids[i], body@),
                Err(_) => Seq::empty(),
            },
    )
}

/// What the replies for the nearby routes yield: the failure of the first
/// failing route, or the groups of all routes, each reduced to the nearby
/// stops.
pub open spec fn nearby_outcome(
    stop_ids: Seq<Seq<char>>,
    route_ids: Seq<Seq<char>>,
    replies: Seq<Checked<GetStopsForRouteResponse>>,
) -> Result<Seq<StopGroup>, TransitClientErrorView> {
    match first_route_failure(replies) {
        Some(error) => Err(error),
        None => Ok(nearby_parts(fetched_groups(route_ids, replies).flatten(), stop_ids)),
    }
}

/// The end of a lookup with an internal error.
pub open spec fn failed_with(reason: Seq<char>) -> (LocationLookupView, LookupActionView) {
    (
        LocationLookupView::Finished,
        LookupActionView::Finish(Err(TransitClientErrorView::Internal(reason))),
    )
}

/// The request for the stops near coordinates.
pub open spec fn find_stops_at(service: TransitService, lat: Seq<char>, lon: Seq<char>) -> (
    LocationLookupView,
    LookupActionView,
) {
    (
        LocationLookupView::FindingStops,
        LookupActionView::FetchNearbyStops(
            stops_for_location_address(service.host(), service.api_key(), lat, lon),
        ),
    )
}

/// The step that a lookup takes from `state` on `event`: the state it is in
/// afterwards, and what to do next.
///
/// - Started with coordinates, it asks for the stops near them; started with
///   a place, it asks for the details of the place, and on the reply for the
///   stops near the place's coordinates.
/// - On the nearby stops it asks for the stops of every route that serves
///   one of them, each route once.
/// - On the replies for all routes it ends with their groups, each reduced
///   to the nearby stops.
/// - Any failure ends the lookup, and so does an event that does not answer
///   the last request.
pub open spec fn lookup_step(service: TransitService, state: LocationLookupView, event: LookupEvent) -> (
    LocationLookupView,
    LookupActionView,
) {
    match (state, event) {
        (
            LocationLookupView::Idle,
            LookupEvent::Begin(GetStopsAtLocationInput::LatLong(lat, lon)),
        ) => find_stops_at(service, lat@, lon@),
        (
            LocationLookupView::Idle,
            LookupEvent::Begin(GetStopsAtLocationInput::GooglePlaceId(place_id)),
        ) => (
            LocationLookupView::ResolvingPlace,
            LookupActionView::FetchPlaceDetails(
                place_details_address(service.maps().host(), service.maps().api_key(), place_id@),
            ),
        ),
        (LocationLookupView::ResolvingPlace, LookupEvent::PlaceDetails(reply)) => {
            match coordinates_outcome(reply) {
                Ok(pair) => find_stops_at(service, pair.0, pair.1),
                Err(error) => failed_with("Failed to extract coordinates: "@ + error.message()),
            }
        },
        (LocationLookupView::FindingStops, LookupEvent::NearbyStops(reply)) => {
            match reply.received(
                "Failed to send stops for location API request: "@,
                "Failed to parse json for stops-for-location request: "@,
            ) {
                Ok(body) => (
                    LocationLookupView::FetchingRoutes {
                        stop_ids: nearby_stop_ids(body@),
                        route_ids: nearby_route_ids(body@),
                    },
                    LookupActionView::FetchRoutes(
                        route_addresses(
                            service.host(),
                            service.api_key(),
                            nearby_route_ids(body@),
                        ),
                    ),
                ),
                Err(reason) => failed_with(reason),
            }
        },
        (
            LocationLookupView::FetchingRoutes { stop_ids, route_ids },
            LookupEvent::Routes(replies),
        ) => {
            if replies@.len() == route_ids.len() {
                (
                    LocationLookupView::Finished,
                    LookupActionView::Finish(nearby_outcome(stop_ids, route_ids, replies@)),
                )
            } else {
                failed_with("The replies do not answer the requests"@)
            }
        },
        _ => failed_with("The event does not answer the request"@),
    }
}

/// A lookup that is started with coordinates, gets the nearby stops and then
/// a reply for every nearby route ends after three steps, with the groups of
/// the routes reduced to the nearby stops or with the failure of the first
/// failing route.
pub proof fn lemma_lookup_by_coordinates(
    service: TransitService,
    lat: String,
    lon: String,
    nearby: GetStopsAtLocationResponse,
    replies: Vec<Checked<GetStopsForRouteResponse>>,
)
    requires
        replies@.len() == nearby_route_ids(nearby@).len(),
    ensures
        ({
            let first = lookup_step(
                service,
                LocationLookupView::Idle,
                LookupEvent::Begin(GetStopsAtLocationInput::LatLong(lat, lon)),
            );
            let second = lookup_step(
                service,
                first.0,
                LookupEvent::NearbyStops(Fetched::Decoded(nearby)),
            );
            let third = lookup_step(service, second.0, LookupEvent::Routes(replies));
            &&& first.1 == LookupActionView::FetchNearbyStops(
                stops_for_location_address(service.host(), service.api_key(), lat@, lon@),
            )
            &&& second.1 == LookupActionView::FetchRoutes(
                route_addresses(service.host(), service.api_key(), nearby_route_ids(nearby@)),
            )
            &&& third == (
                LocationLookupView::Finished,
                LookupActionView::Finish(
                    nearby_outcome(nearby_stop_ids(nearby@), nearby_route_ids(nearby@), replies@),
                ),
            )
        }),
{
}

/// The end of a lookup with an internal error.
pub fn fail_with(reason: String) -> (step: (LocationLookup, LookupAction))
    ensures
        (step.0@, step.1@) == failed_with(reason@),
{
    (LocationLookup::Finished, LookupAction::Finish(Err(TransitClientError::Internal(reason))))
}

/// The groups of the nearby routes from the replies to the stops-for-route
/// calls, each group reduced to the nearby stops.
fn gather_nearby_groups(
    stop_ids: &Vec<String>,
    route_ids: &Vec<String>,
    replies: &Vec<Checked<GetStopsForRouteResponse>>,
) -> (outcome: Result<GetGroupedStopsAtLocation, TransitClientError>)
    requires
        replies.len() == route_ids.len(),
    ensures
        outcome_view(outcome) == nearby_outcome(views(stop_ids@), views(route_ids@), replies@),
{
    let ghost fetched = fetched_groups(views(route_ids@), replies@);
    let mut results: Vec<GetStopsForRouteResult> = Vec::new();
    let mut i: usize = 0;
    proof {
        assert(replies@.skip(0) =~= replies@);
        assert(route_results(results@) =~= fetched.take(0));
    }
    while i < replies.len()
        invariant
            i <= replies.len(),
            replies.len() == route_ids.len(),
            fetched == fetched_groups(views(route_ids@), replies@),
            first_route_failure(replies@) == first_route_failure(replies@.skip(i as int)),
            route_results(results@) == fetched.take(i as int),
        decreases replies.len() - i,
    {
        proof {
            assert(replies@.skip(i as int).drop_first() =~= replies@.skip(i + 1));
            assert(replies@.skip(i as int).first() == replies@[i as int]);
        }
        match replies[i].body_or_not_found() {
            Ok(body) => {
                let ghost before = route_results(results@);
                let result = group_stops_for_route(&route_ids[i], body);
                results.push(result);
                proof {
                    assert(route_results(results@) =~= before.push(result@));
                    assert(fetched.take(i + 1) =~= fetched.take(i as int).push(fetched[i as int]));
                }
            },
            Err(error) => {
                return Err(error);
            },
        }
        i += 1;
    }
    proof {
        assert(fetched.take(i as int) =~= fetched);
    }
    Ok(group_nearby_stops(&results, stop_ids))
}

impl TransitService {
    /// The request for the stops near coordinates.
    pub fn find_stops(&self, lat: &str, lon: &str) -> (step: (LocationLookup, LookupAction))
        ensures
            (step.0@, step.1@) == find_stops_at(*self, lat@, lon@),
    {
        (
            LocationLookup::FindingStops,
            LookupAction::FetchNearbyStops(self.stops_for_location_url(lat, lon)),
        )
    }

    /// The addresses to call for the stops of the given routes.
    pub fn route_urls(&self, route_ids: &Vec<String>) -> (urls: Vec<String>)
        ensures
            views(urls@) == route_addresses(self.host(), self.api_key(), views(route_ids@)),
    {
        let ghost wanted = route_addresses(self.host(), self.api_key(), views(route_ids@));
        let mut urls: Vec<String> = Vec::new();
        let mut i: usize = 0;
        proof {
            assert(views(urls@) =~= wanted.take(0));
        }
        while i < route_ids.len()
            invariant
                i <= route_ids.len(),
                wanted == route_addresses(self.host(), self.api_key(), views(route_ids@)),
                views(urls@) == wanted.take(i as int),
            decreases route_ids.len() - i,
        {
            let ghost before = views(urls@);
            let url = self.stops_for_route_url(route_ids[i].as_str());
            urls.push(url);
            proof {
                assert(views(urls@) =~= before.push(url@));
                assert(wanted.take(i + 1) =~= wanted.take(i as int).push(wanted[i as int]));
            }
            i += 1;
        }
        proof {
            assert(wanted.take(i as int) =~= wanted);
        }
        urls
    }

    /// Takes one step of the lookup of the routes and stops near a location:
    /// from the state the lookup is in and what has happened, to the state it
    /// is in afterwards and what to do next.
    pub fn get_stops_at_location(&self, state: LocationLookup, event: &LookupEvent) -> (step: (
        LocationLookup,
        LookupAction,
    ))
        ensures
            (step.0@, step.1@) == lookup_step(*self, state@, *event),
    {
        match state {
            LocationLookup::Idle => match event {
                LookupEvent::Begin(GetStopsAtLocationInput::LatLong(lat, lon)) => {
                    self.find_stops(lat.as_str(), lon.as_str())
                },
                LookupEvent::Begin(GetStopsAtLocationInput::GooglePlaceId(place_id)) => {
                    let url = self.maps_service().place_details_url(place_id.as_str());
                    (LocationLookup::ResolvingPlace, LookupAction::FetchPlaceDetails(url))
                },
                _ => fail_with(String::from_str("The event does not answer the request")),
            },
            LocationLookup::ResolvingPlace => match event {
                LookupEvent::PlaceDetails(reply) => {
                    match self.maps_service().extract_coordinates_from_place_id(reply) {
                        Ok(pair) => self.find_stops(pair.0.as_str(), pair.1.as_str()),
                        Err(error) => fail_with(
                            String::from_str("Failed to extract coordinates: ").concat(
                                error.to_string().as_str(),
                            ),
                        ),
                    }
                },
                _ => fail_with(String::from_str("The event does not answer the request")),
            },
            LocationLookup::FindingStops => match event {
                LookupEvent::NearbyStops(reply) => {
                    match reply.body(
                        "Failed to send stops for location API request: ",
                        "Failed to parse json for stops-for-location request: ",
                    ) {
                        Ok(body) => {
                            let stop_ids = collect_stop_ids(body);
                            let route_ids = collect_route_ids(body);
                            let urls = self.route_urls(&route_ids);
                            (
                                LocationLookup::FetchingRoutes { stop_ids, route_ids },
                                LookupAction::FetchRoutes(urls),
                            )
                        },
                        Err(reason) => fail_with(reason),
                    }
                },
                _ => fail_with(String::from_str("The event does not answer the request")),
            },
            LocationLookup::FetchingRoutes { stop_ids, route_ids } => match event {
                LookupEvent::Routes(replies) => {
                    if replies.len() == route_ids.len() {
                        let outcome = gather_nearby_groups(&stop_ids, &route_ids, replies);
                        (LocationLookup::Finished, LookupAction::Finish(outcome))
                    } else {
                        fail_with(String::from_str("The replies do not answer the requests"))
                    }
                },
                _ => fail_with(String::from_str("The event does not answer the request")),
            },
            LocationLookup::Finished => fail_with(
                String::from_str("The event does not answer the request"),
            ),
        }
    }
}

} // verus!
