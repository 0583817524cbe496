//! The stops along a route, grouped by direction.

use vstd::prelude::*;
use crate::app_error::{internal_server_error, AppError, AppErrorView, NOT_FOUND};
use crate::errors::TransitClientError;
use crate::model::{views, Named, StopGroup};
use crate::records::{GetStopsForRouteResult, GetStopsForRouteResultGroup};
use crate::upstream::outcome_view;

verus! {

/// The request parameter: the identifier of the route.
pub struct GetTransitStopsForRoute {
    pub route_id: String,
}

/// One stop as the reply shows it.
pub struct GetTransitStopsForRouteResponseGroupStop {
    pub id: String,
    pub name: String,
}

impl View for GetTransitStopsForRouteResponseGroupStop {
    type V = Named;

    open spec fn view(&self) -> Named {
        Named { id: self.id@, name: self.name@ }
    }
}

/// One group of stops as the reply shows it.
pub struct GetTransitStopsForRouteResponseGroup {
    pub id: String,
    pub name: String,
    pub stops: Vec<GetTransitStopsForRouteResponseGroupStop>,
}

/// Model of a [`GetTransitStopsForRouteResponseGroup`].
pub struct GroupLine {
    pub id: Seq<char>,
    pub name: Seq<char>,
    pub stops: Seq<Named>,
}

impl View for GetTransitStopsForRouteResponseGroup {
    type V = GroupLine;

    open spec fn view(&self) -> GroupLine {
        GroupLine { id: self.id@, name: self.name@, stops: views(self.stops@) }
    }
}

/// The groups of a reply.
pub struct GetTransitStopsForRouteResponseData {
    pub groups: Vec<GetTransitStopsForRouteResponseGroup>,
}

impl View for GetTransitStopsForRouteResponseData {
    type V = Seq<GroupLine>;

    open spec fn view(&self) -> Seq<GroupLine> {
        views(self.groups@)
    }
}

/// The reply: the groups under `data`.
pub struct GetTransitStopsForRouteResponse {
    pub data: GetTransitStopsForRouteResponseData,
}

impl View for GetTransitStopsForRouteResponse {
    type V = Seq<GroupLine>;

    open spec fn view(&self) -> Seq<GroupLine> {
        self.data@
    }
}

/// A group as the reply shows it.
pub open spec fn group_line_of(group: StopGroup) -> GroupLine {
    GroupLine { id: group.id, name: group.name, stops: group.stops }
}

/// Groups as the reply shows them, one for one.
pub open spec fn group_lines_of(groups: Seq<StopGroup>) -> Seq<GroupLine> {
    Seq::new(groups.len(), |i: int| group_line_of(groups[i]))
}

/// The error for a route that the upstream service does not know.
pub open spec fn route_not_found() -> AppErrorView {
    AppErrorView { code: NOT_FOUND, message: "Route does not exist"@ }
}

/// What the endpoint answers: the groups found; the status 404 where the
/// route does not exist; an internal server error on every other failure.
pub open spec fn stops_for_route_reply(
    found: Result<GetStopsForRouteResult, TransitClientError>,
) -> Result<Seq<GroupLine>, AppErrorView> {
    match found {
        Ok(result) => Ok(group_lines_of(result@)),
        Err(TransitClientError::ResourceNotFound) => Err(route_not_found()),
        Err(TransitClientError::Internal(_)) => Err(internal_server_error()),
    }
}

/// A group as the reply shows it.
pub fn show_group(group: &GetStopsForRouteResultGroup) -> (line: GetTransitStopsForRouteResponseGroup)
    ensures
        line@ == group_line_of(group@),
{
    let mut stops: Vec<GetTransitStopsForRouteResponseGroupStop> = Vec::new();
    let mut i: usize = 0;
    proof {
        assert(views(stops@) =~= group@.stops.take(0));
    }
    while i < group.stops.len()
        invariant
            i <= group.stops.len(),
            views(stops@) == group@.stops.take(i as int),
        decreases group.stops.len() - i,
    {
        let ghost before = views(stops@);
        let stop = GetTransitStopsForRouteResponseGroupStop {
            id: group.stops[i].id.clone(),
            name: group.stops[i].name.clone(),
        };
        stops.push(stop);
        proof {
            assert(views(stops@) =~= before.push(stop@));
            assert(group@.stops.take(i + 1) =~= group@.stops.take(i as int).push(
                group@.stops[i as int],
            ));
        }
        i += 1;
    }
    proof {
        assert(group@.stops.take(i as int) =~= group@.stops);
    }
    GetTransitStopsForRouteResponseGroup { id: group.id.clone(), name: group.name.clone(), stops }
}

/// Builds the reply of the endpoint from what the transit service found.
pub fn get_transit_stops_for_route(found: &Result<GetStopsForRouteResult, TransitClientError>) -> (reply:
    Result<GetTransitStopsForRouteResponse, AppError>)
    ensures
        outcome_view(reply) == stops_for_route_reply(*found),
{
    match found {
        Ok(result) => {
            let ghost wanted = group_lines_of(result@);
            let mut groups: Vec<GetTransitStopsForRouteResponseGroup> = Vec::new();
            let mut i: usize = 0;
            proof {
                assert(views(groups@) =~= wanted.take(0));
            }
            while i < result.groups.len()
                invariant
                    i <= result.groups.len(),
                    wanted == group_lines_of(result@),
                    views(groups@) == wanted.take(i as int),
                decreases result.groups.len() - i,
            {
                let ghost before = views(groups@);
                let line = show_group(&result.groups[i]);
                groups.push(line);
                proof {
                    assert(views(groups@) =~= before.push(line@));
                    assert(wanted.take(i + 1) =~= wanted.take(i as int).push(wanted[i as int]));
                }
                i += 1;
            }
            proof {
                assert(wanted.take(i as int) =~= wanted);
            }
            Ok(GetTransitStopsForRouteResponse { data: GetTransitStopsForRouteResponseData { groups } })
        },
        Err(TransitClientError::ResourceNotFound) => Err(
            AppError::new(NOT_FOUND, "Route does not exist"),
        ),
        Err(TransitClientError::Internal(_)) => Err(AppError::internal()),
    }
}

} // verus!
