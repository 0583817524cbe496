//! The stops along a route, grouped by direction: stop identifiers are
//! resolved to names through the reply's reference section.

use vstd::prelude::*;
use crate::model::{views, Named, RouteDetail, StopGroup, StopIdGroup};
use crate::records::{
    GetStopsForRouteResult,
    GetStopsForRouteResultGroup,
    GetStopsForRouteResultGroupStop,
};
use crate::types::mta_get_stops_for_route_response::{
    GetStopsForRouteResponse,
    GetStopsForRouteResponseDataEntryStopGroupingStopGroup,
    GetStopsForRouteResponseDataReferencesRoute,
    GetStopsForRouteResponseDataReferencesStop,
};

verus! {

/// The name under which the reference section lists a stop. Where it lists
/// the identifier more than once, the last entry counts.
pub open spec fn stop_name(stops: Seq<Named>, id: Seq<char>) -> Option<Seq<char>>
    decreases stops.len(),
{
    if stops.len() == 0 {
        None
    } else if stops.last().id == id {
        Some(stops.last().name)
    } else {
        stop_name(stops.drop_last(), id)
    }
}

/// The stops of a group with their names, in the group's order. An identifier
/// that the reference section does not list is left out.
pub open spec fn resolved_stops(stops: Seq<Named>, ids: Seq<Seq<char>>) -> Seq<Named>
    decreases ids.len(),
{
    if ids.len() == 0 {
        Seq::empty()
    } else {
        let front = resolved_stops(stops, ids.drop_last());
        match stop_name(stops, ids.last()) {
            Some(name) => front.push(Named { id: ids.last(), name }),
            None => front,
        }
    }
}

/// A name found for a stop is the name of a listed stop with that identifier.
pub proof fn lemma_stop_name_is_listed(stops: Seq<Named>, id: Seq<char>)
    requires
        stop_name(stops, id) is Some,
    ensures
        stops.contains(Named { id, name: stop_name(stops, id)->0 }),
    decreases stops.len(),
{
    if stops.last().id == id {
        assert(stops[stops.len() - 1] == Named { id, name: stop_name(stops, id)->0 });
    } else {
        lemma_stop_name_is_listed(stops.drop_last(), id);
        let found = Named { id, name: stop_name(stops, id)->0 };
        let at = choose|at: int| 0 <= at < stops.drop_last().len() && stops.drop_last()[at] == found;
        assert(stops[at] == found);
    }
}

/// Every resolved stop is a listed stop whose identifier the group names,
/// and no more stops are resolved than the group names.
pub proof fn lemma_resolved_stops_are_listed(stops: Seq<Named>, ids: Seq<Seq<char>>, i: int)
    requires
        0 <= i < resolved_stops(stops, ids).len(),
    ensures
        resolved_stops(stops, ids).len() <= ids.len(),
        ids.contains(resolved_stops(stops, ids)[i].id),
        stops.contains(resolved_stops(stops, ids)[i]),
    decreases ids.len(),
{
    let front = resolved_stops(stops, ids.drop_last());
    if i < front.len() {
        lemma_resolved_stops_are_listed(stops, ids.drop_last(), i);
        let at = choose|at: int|
            0 <= at < ids.drop_last().len() && ids.drop_last()[at] == front[i].id;
        assert(ids[at] == front[i].id);
    } else {
        if front.len() > 0 {
            lemma_resolved_stops_are_listed(stops, ids.drop_last(), 0);
        }
        lemma_stop_name_is_listed(stops, ids.last());
        assert(ids[ids.len() - 1] == ids.last());
    }
}

/// The display name of a route: that of the first listed route with the
/// identifier, or the empty text where none is listed.
pub open spec fn route_display_name(routes: Seq<Named>, id: Seq<char>) -> Seq<char>
    decreases routes.len(),
{
    if routes.len() == 0 {
        Seq::empty()
    } else if routes.first().id == id {
        routes.first().name
    } else {
        route_display_name(routes.drop_first(), id)
    }
}

/// One upstream group as a group of a route.
pub open spec fn group_of(
    route_id: Seq<char>,
    route_name: Seq<char>,
    stops: Seq<Named>,
    group: StopIdGroup,
) -> StopGroup {
    StopGroup {
        id: group.id,
        name: group.name,
        route_id,
        route_name,
        stops: resolved_stops(stops, group.stop_ids),
    }
}

/// A list of upstream groups as groups of a route, one for one.
pub open spec fn groups_of(
    route_id: Seq<char>,
    route_name: Seq<char>,
    stops: Seq<Named>,
    groups: Seq<StopIdGroup>,
) -> Seq<StopGroup> {
    Seq::new(groups.len(), |i: int| group_of(route_id, route_name, stops, groups[i]))
}

/// The groups of a route: every stop group of every grouping, in upstream
/// order, with the route's identifier and display name.
pub open spec fn route_groups(route_id: Seq<char>, detail: RouteDetail) -> Seq<StopGroup> {
    groups_of(
        route_id,
        route_display_name(detail.routes, route_id),
        detail.stops,
        detail.groupings.flatten(),
    )
}

/// Looks a stop up in the reference section.
pub fn find_stop_name<'a>(
    stops: &'a Vec<GetStopsForRouteResponseDataReferencesStop>,
    id: &String,
) -> (found: Option<&'a String>)
    ensures
        match found {
            Some(name) => stop_name(views(stops@), id@) == Some(name@),
            None => stop_name(views(stops@), id@) is None,
        },
{
    let mut i: usize = stops.len();
    proof {
        assert(views(stops@).take(i as int) =~= views(stops@));
    }
    while i > 0
        invariant
            i <= stops.len(),
            stop_name(views(stops@), id@) == stop_name(views(stops@).take(i as int), id@),
        decreases i,
    {
        proof {
            assert(views(stops@).take(i as int).drop_last() =~= views(stops@).take(i - 1));
        }
        i -= 1;
        if stops[i].id == *id {
            return Some(&stops[i].name);
        }
    }
    None
}

/// Resolves the stop identifiers of a group to stops with names.
pub fn resolve_stops(
    stops: &Vec<GetStopsForRouteResponseDataReferencesStop>,
    ids: &Vec<String>,
) -> (resolved: Vec<GetStopsForRouteResultGroupStop>)
    ensures
        views(resolved@) == resolved_stops(views(stops@), views(ids@)),
{
    let mut resolved: Vec<GetStopsForRouteResultGroupStop> = Vec::new();
    let mut i: usize = 0;
    proof {
        assert(views(resolved@) =~= Seq::<Named>::empty());
    }
    while i < ids.len()
        invariant
            i <= ids.len(),
            views(resolved@) == resolved_stops(views(stops@), views(ids@).take(i as int)),
        decreases ids.len() - i,
    {
        proof {
            assert(views(ids@).take(i + 1).drop_last() =~= views(ids@).take(i as int));
        }
        let ghost before = views(resolved@);
        match find_stop_name(stops, &ids[i]) {
            Some(name) => {
                let stop = GetStopsForRouteResultGroupStop {
                    id: ids[i].clone(),
                    name: name.clone(),
                };
                resolved.push(stop);
                proof {
                    assert(views(resolved@) =~= before.push(stop@));
                }
            },
            None => {},
        }
        i += 1;
    }
    proof {
        assert(views(ids@).take(ids@.len() as int) =~= views(ids@));
    }
    resolved
}

/// Finds the display name of a route among the listed routes.
pub fn find_route_name(
    routes: &Vec<GetStopsForRouteResponseDataReferencesRoute>,
    id: &String,
) -> (name: String)
    ensures
        name@ == route_display_name(views(routes@), id@),
{
    let mut i: usize = 0;
    proof {
        assert(views(routes@).skip(0) =~= views(routes@));
    }
    while i < routes.len()
        invariant
            i <= routes.len(),
            route_display_name(views(routes@), id@) == route_display_name(
                views(routes@).skip(i as int),
                id@,
            ),
        decreases routes.len() - i,
    {
        proof {
            assert(views(routes@).skip(i as int).drop_first() =~= views(routes@).skip(i + 1));
        }
        if routes[i].id == *id {
            return routes[i].shortName.clone();
        }
        i += 1;
    }
    String::new()
}

/// One upstream group as a group of the route, its stops resolved.
pub fn build_group(
    route_id: &String,
    route_name: &String,
    stops: &Vec<GetStopsForRouteResponseDataReferencesStop>,
    group: &GetStopsForRouteResponseDataEntryStopGroupingStopGroup,
) -> (built: GetStopsForRouteResultGroup)
    ensures
        built@ == group_of(route_id@, route_name@, views(stops@), group@),
{
    GetStopsForRouteResultGroup {
        id: group.id.clone(),
        name: group.name.name.clone(),
        route_id: route_id.clone(),
        route_name: route_name.clone(),
        stops: resolve_stops(stops, &group.stopIds),
    }
}

/// Groups the stops of a route as the reply describes them.
pub fn group_stops_for_route(route_id: &String, reply: &GetStopsForRouteResponse) -> (result:
    GetStopsForRouteResult)
    ensures
        result@ == route_groups(route_id@, reply@),
{
    let route_name = find_route_name(&reply.data.references.routes, route_id);
    let ghost stops = views(reply.data.references.stops@);
    let ghost groupings = reply@.groupings;
    let mut groups: Vec<GetStopsForRouteResultGroup> = Vec::new();
    let mut i: usize = 0;
    proof {
        assert(groupings.take(0) =~= Seq::<Seq<StopIdGroup>>::empty());
        assert(views(groups@) =~= groups_of(
            route_id@,
            route_name@,
            stops,
            groupings.take(0).flatten(),
        ));
    }
    while i < reply.data.entry.stopGroupings.len()
        invariant
            i <= reply.data.entry.stopGroupings.len(),
            stops == views(reply.data.references.stops@),
            groupings == reply@.groupings,
            groupings == views(reply.data.entry.stopGroupings@),
            views(groups@) == groups_of(
                route_id@,
                route_name@,
                stops,
                groupings.take(i as int).flatten(),
            ),
        decreases reply.data.entry.stopGroupings.len() - i,
    {
        let grouping = &reply.data.entry.stopGroupings[i];
        let ghost done = groupings.take(i as int).flatten();
        let mut j: usize = 0;
        proof {
            assert(done + grouping@.take(0) =~= done);
        }
        while j < grouping.stopGroups.len()
            invariant
                j <= grouping.stopGroups.len(),
                stops == views(reply.data.references.stops@),
                views(groups@) == groups_of(
                    route_id@,
                    route_name@,
                    stops,
                    done + grouping@.take(j as int),
                ),
            decreases grouping.stopGroups.len() - j,
        {
            let ghost before = views(groups@);
            let built = build_group(
                route_id,
                &route_name,
                &reply.data.references.stops,
                &grouping.stopGroups[j],
            );
            groups.push(built);
            proof {
                let so_far = done + grouping@.take(j as int);
                assert(grouping@[j as int] == grouping.stopGroups@[j as int]@);
                assert(done + grouping@.take(j + 1) =~= so_far.push(grouping@[j as int]));
                assert(views(groups@) =~= before.push(built@));
                assert(views(groups@) =~= groups_of(
                    route_id@,
                    route_name@,
                    stops,
                    done + grouping@.take(j + 1),
                ));
            }
            j += 1;
        }
        proof {
            assert(grouping@.take(j as int) =~= grouping@);
            assert(groupings.take(i + 1) =~= groupings.take(i as int).push(grouping@));
            groupings.take(i as int).lemma_flatten_push(grouping@);
        }
        i += 1;
    }
    proof {
        assert(groupings.take(i as int) =~= groupings);
    }
    GetStopsForRouteResult { groups }
}

} // verus!
