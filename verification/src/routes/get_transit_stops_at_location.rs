//! The routes near a location, each once, with its groups of nearby stops.

use vstd::prelude::*;
use vstd::string::*;
use crate::app_error::{internal_server_error, AppError, AppErrorView};
use crate::errors::TransitClientError;
use crate::location::{distinct, lemma_distinct_contains};
use crate::model::{views, Named, StopGroup};
use crate::records::{GetGroupedStopsAtLocation, GetStopsForRouteResultGroup};
use crate::text::is_listed;
use crate::types::lat_long_location::{GetStopsAtLocationInput, LocationQuery};
use crate::upstream::outcome_view;

verus! {

/// The request parameters: latitude and longitude.
pub struct GetTransitStopsAtLocation {
    pub lat: String,
    pub lon: String,
}

/// One stop as the reply shows it.
pub struct GetTransitStopsAtLocationResponseRouteStop {
    pub id: String,
    pub name: String,
}

impl View for GetTransitStopsAtLocationResponseRouteStop {
    type V = Named;

    open spec fn view(&self) -> Named {
        Named { id: self.id@, name: self.name@ }
    }
}

/// One group of stops of a route as the reply shows it.
pub struct GetTransitStopsAtLocationResponseRouteGrouping {
    pub name: String,
    pub stops: Vec<GetTransitStopsAtLocationResponseRouteStop>,
}

/// Model of a [`GetTransitStopsAtLocationResponseRouteGrouping`].
pub struct GroupingLine {
    pub name: Seq<char>,
    pub stops: Seq<Named>,
}

impl View for GetTransitStopsAtLocationResponseRouteGrouping {
    type V = GroupingLine;

    open spec fn view(&self) -> GroupingLine {
        GroupingLine { name: self.name@, stops: views(self.stops@) }
    }
}

/// One route as the reply shows it.
pub struct GetTransitStopsAtLocationResponseRoute {
    pub id: String,
    pub name: String,
    pub groupings: Vec<GetTransitStopsAtLocationResponseRouteGrouping>,
}

/// Model of a [`GetTransitStopsAtLocationResponseRoute`].
pub struct RouteLine {
    pub id: Seq<char>,
    pub name: Seq<char>,
    pub groupings: Seq<GroupingLine>,
}

impl View for GetTransitStopsAtLocationResponseRoute {
    type V = RouteLine;

    open spec fn view(&self) -> RouteLine {
        RouteLine { id: self.id@, name: self.name@, groupings: views(self.groupings@) }
    }
}

/// The routes of a reply.
pub struct GetTransitStopsAtLocationResponseData {
    pub routes: Vec<GetTransitStopsAtLocationResponseRoute>,
}

impl View for GetTransitStopsAtLocationResponseData {
    type V = Seq<RouteLine>;

    open spec fn view(&self) -> Seq<RouteLine> {
        views(self.routes@)
    }
}

/// The reply: the routes under `data`.
pub struct GetTransitStopsAtLocationResponse {
    pub data: GetTransitStopsAtLocationResponseData,
}

impl View for GetTransitStopsAtLocationResponse {
    type V = Seq<RouteLine>;

    open spec fn view(&self) -> Seq<RouteLine> {
        self.data@
    }
}

/// The route identifiers of a list of groups, group by group.
pub open spec fn route_ids_of(groups: Seq<StopGroup>) -> Seq<Seq<char>> {
    Seq::new(groups.len(), |i: int| groups[i].route_id)
}

/// The test for a group of the route `route_id`.
pub open spec fn is_of_route(route_id: Seq<char>) -> spec_fn(StopGroup) -> bool {
    |group: StopGroup| group.route_id == route_id
}

/// A group as a grouping of its route.
pub open spec fn grouping_of(group: StopGroup) -> GroupingLine {
    GroupingLine { name: group.name, stops: group.stops }
}

/// Groups as groupings, one for one.
pub open spec fn groupings_of(groups: Seq<StopGroup>) -> Seq<GroupingLine> {
    Seq::new(groups.len(), |i: int| grouping_of(groups[i]))
}

/// The display name of a route: that of the first group, or the empty text
/// where there is no group.
pub open spec fn name_of_route(own: Seq<StopGroup>) -> Seq<char> {
    if own.len() > 0 {
        own[0].route_name
    } else {
        Seq::empty()
    }
}

/// A route as the reply shows it: its identifier, its display name and its
/// groups among `groups`, in their order.
pub open spec fn route_line(groups: Seq<StopGroup>, route_id: Seq<char>) -> RouteLine {
    let own = groups.filter(is_of_route(route_id));
    RouteLine { id: route_id, name: name_of_route(own), groupings: groupings_of(own) }
}

/// The routes of a list of groups as the reply shows them: each route once,
/// in the order in which the groups first name it.
pub open spec fn route_lines(groups: Seq<StopGroup>) -> Seq<RouteLine> {
    let route_ids = distinct(route_ids_of(groups));
    Seq::new(route_ids.len(), |i: int| route_line(groups, route_ids[i]))
}

/// What the endpoint answers: the routes found; an internal server error
/// where the lookup failed.
pub open spec fn stops_at_location_reply(
    found: Result<GetGroupedStopsAtLocation, TransitClientError>,
) -> Result<Seq<RouteLine>, AppErrorView> {
    match found {
        Ok(grouped) => Ok(route_lines(grouped@)),
        Err(_) => Err(internal_server_error()),
    }
}

impl GetTransitStopsAtLocation {
    /// The location that the request names.
    pub fn location(&self) -> (input: GetStopsAtLocationInput)
        ensures
            input@ == LocationQuery::Coordinates(self.lat@, self.lon@),
    {
        GetStopsAtLocationInput::LatLong(self.lat.clone(), self.lon.clone())
    }
}

/// A group as a grouping of its route.
pub fn show_grouping(group: &GetStopsForRouteResultGroup) -> (line:
    GetTransitStopsAtLocationResponseRouteGrouping)
    ensures
        line@ == grouping_of(group@),
{
    let mut stops: Vec<GetTransitStopsAtLocationResponseRouteStop> = Vec::new();
    let mut i: usize = 0;
    proof {
        assert(views(stops@) =~= group@.stops.take(0));
    }
    while i < group.stops.len()
        invariant
            i <= group.stops.len(),
            views(stops@) == group@.stops.take(i as int),
        decreases group.stops.len() - i,
    {
        let ghost before = views(stops@);
        let stop = GetTransitStopsAtLocationResponseRouteStop {
            id: group.stops[i].id.clone(),
            name: group.stops[i].name.clone(),
        };
        stops.push(stop);
        proof {
            assert(views(stops@) =~= before.push(stop@));
            assert(group@.stops.take(i + 1) =~= group@.stops.take(i as int).push(
                group@.stops[i as int],
            ));
        }
        i += 1;
    }
    proof {
        assert(group@.stops.take(i as int) =~= group@.stops);
    }
    GetTransitStopsAtLocationResponseRouteGrouping { name: group.name.clone(), stops }
}

/// A route as the reply shows it, with its groups among `groups`.
pub fn show_route(groups: &Vec<GetStopsForRouteResultGroup>, route_id: &String) -> (line:
    GetTransitStopsAtLocationResponseRoute)
    ensures
        line@ == route_line(views(groups@), route_id@),
{
    let ghost all = views(groups@);
    let ghost test = is_of_route(route_id@);
    let mut name = String::new();
    let mut groupings: Vec<GetTransitStopsAtLocationResponseRouteGrouping> = Vec::new();
    let mut i: usize = 0;
    proof {
        reveal(Seq::filter);
        assert(views(groupings@) =~= groupings_of(all.take(0).filter(test)));
    }
    while i < groups.len()
        invariant
            i <= groups.len(),
            all == views(groups@),
            test == is_of_route(route_id@),
            name@ == name_of_route(all.take(i as int).filter(test)),
            views(groupings@) == groupings_of(all.take(i as int).filter(test)),
        decreases groups.len() - i,
    {
        let ghost before = views(groupings@);
        let ghost own = all.take(i as int).filter(test);
        proof {
            assert(all.take(i + 1) =~= all.take(i as int).push(all[i as int]));
            all.take(i as int).lemma_filter_push(all[i as int], test);
        }
        if groups[i].route_id == *route_id {
            if groupings.len() == 0 {
                name = groups[i].route_name.clone();
            }
            let grouping = show_grouping(&groups[i]);
            groupings.push(grouping);
            proof {
                assert(views(groupings@) =~= before.push(grouping@));
                assert(views(groupings@) =~= groupings_of(own.push(all[i as int])));
            }
        }
        i += 1;
    }
    proof {
        assert(all.take(i as int) =~= all);
    }
    GetTransitStopsAtLocationResponseRoute { id: route_id.clone(), name, groupings }
}

/// Builds the reply of the endpoint from what the transit service found.
pub fn get_transit_stops_at_location(
    found: &Result<GetGroupedStopsAtLocation, TransitClientError>,
) -> (reply: Result<GetTransitStopsAtLocationResponse, AppError>)
    ensures
        outcome_view(reply) == stops_at_location_reply(*found),
{
    match found {
        Ok(grouped) => {
            let groups = &grouped.groups;
            let ghost all = views(groups@);
            let ghost ids = route_ids_of(all);
            let mut seen: Vec<String> = Vec::new();
            let mut routes: Vec<GetTransitStopsAtLocationResponseRoute> = Vec::new();
            let mut i: usize = 0;
            proof {
                assert(views(seen@) =~= distinct(ids.take(0)));
                assert(views(routes@) =~= Seq::new(
                    views(seen@).len(),
                    |k: int| route_line(all, views(seen@)[k]),
                ));
            }
            while i < groups.len()
                invariant
                    i <= groups.len(),
                    all == views(groups@),
                    ids == route_ids_of(all),
                    views(seen@) == distinct(ids.take(i as int)),
                    views(routes@) == Seq::new(
                        views(seen@).len(),
                        |k: int| route_line(all, views(seen@)[k]),
                    ),
                decreases groups.len() - i,
            {
                let ghost seen_before = views(seen@);
                let ghost routes_before = views(routes@);
                proof {
                    assert(ids.take(i + 1).drop_last() =~= ids.take(i as int));
                    lemma_distinct_contains(ids.take(i as int), ids[i as int]);
                }
                if !is_listed(&seen, &groups[i].route_id) {
                    let route = show_route(groups, &groups[i].route_id);
                    let id = groups[i].route_id.clone();
                    seen.push(id);
                    routes.push(route);
                    proof {
                        assert(views(seen@) =~= seen_before.push(id@));
                        assert(views(routes@) =~= routes_before.push(route@));
                        assert(views(routes@) =~= Seq::new(
                            views(seen@).len(),
                            |k: int| route_line(all, views(seen@)[k]),
                        ));
                    }
                }
                i += 1;
            }
            proof {
                assert(ids.take(i as int) =~= ids);
            }
            Ok(
                GetTransitStopsAtLocationResponse {
                    data: GetTransitStopsAtLocationResponseData { routes },
                },
            )
        },
        Err(_) => Err(AppError::internal()),
    }
}

} // verus!
