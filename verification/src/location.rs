//! Routes and stops near a location: which routes serve the nearby stops,
//! and the part of each route's grouping that lies nearby.

use vstd::prelude::*;
use crate::model::{views, Named, NearbyStop, StopGroup};
use crate::records::{
    GetGroupedStopsAtLocation,
    GetStopsForRouteResult,
    GetStopsForRouteResultGroup,
    GetStopsForRouteResultGroupStop,
};
use crate::text::is_listed;
use crate::types::mta_get_stops_at_location_response::GetStopsAtLocationResponse;

verus! {

/// The list without the elements that occurred before: of each value the
/// first occurrence, in the order of the list.
pub open spec fn distinct<A>(list: Seq<A>) -> Seq<A>
    decreases list.len(),
{
    if list.len() == 0 {
        Seq::empty()
    } else {
        let front = distinct(list.drop_last());
        if list.drop_last().contains(list.last()) {
            front
        } else {
            front.push(list.last())
        }
    }
}

/// The distinct elements of a list are the elements of the list.
pub proof fn lemma_distinct_contains<A>(list: Seq<A>, element: A)
    ensures
        distinct(list).contains(element) <==> list.contains(element),
    decreases list.len(),
{
    if list.len() > 0 {
        let front = list.drop_last();
        let last = list.last();
        lemma_distinct_contains(front, element);
        lemma_distinct_contains(front, last);
        assert(list =~= front.push(last));
        if list.contains(element) {
            let at = choose|at: int| 0 <= at < list.len() && list[at] == element;
            if at < front.len() {
                assert(front[at] == element);
                assert(front.contains(element));
                let found = choose|found: int|
                    0 <= found < distinct(front).len() && distinct(front)[found] == element;
                if !front.contains(last) {
                    assert(distinct(list)[found] == element);
                }
            } else {
                if front.contains(last) {
                } else {
                    assert(distinct(list)[distinct(front).len() as int] == element);
                }
            }
        }
        if distinct(list).contains(element) {
            let found = choose|found: int|
                0 <= found < distinct(list).len() && distinct(list)[found] == element;
            if front.contains(last) || found < distinct(front).len() {
                assert(distinct(front)[found] == element);
                assert(distinct(front).contains(element));
                let at = choose|at: int| 0 <= at < front.len() && front[at] == element;
                assert(list[at] == element);
            } else {
                assert(list[list.len() - 1] == element);
            }
        }
    }
}

/// No value occurs twice among the distinct elements of a list.
pub proof fn lemma_distinct_no_duplicates<A>(list: Seq<A>)
    ensures
        distinct(list).no_duplicates(),
    decreases list.len(),
{
    if list.len() > 0 {
        let front = list.drop_last();
        let last = list.last();
        lemma_distinct_no_duplicates(front);
        lemma_distinct_contains(front, last);
        if !front.contains(last) {
            let grown = distinct(front).push(last);
            assert forall|i: int, j: int| 0 <= i < grown.len() && 0 <= j < grown.len() && i != j
                implies grown[i] != grown[j] by {
                if i < distinct(front).len() && j < distinct(front).len() {
                } else if i < distinct(front).len() {
                    assert(distinct(front).contains(grown[i]));
                } else {
                    assert(distinct(front).contains(grown[j]));
                }
            }
        }
    }
}

/// The identifiers of the routes that serve the stops, stop by stop.
pub open spec fn serving_routes(stops: Seq<NearbyStop>) -> Seq<Seq<char>> {
    Seq::new(stops.len(), |i: int| stops[i].routes).flatten()
}

/// The identifiers of the routes near a location: each route that serves a
/// nearby stop, once, in the order in which the reply first names it.
pub open spec fn nearby_route_ids(stops: Seq<NearbyStop>) -> Seq<Seq<char>> {
    distinct(serving_routes(stops))
}

/// The identifiers of the stops near a location, in the reply's order.
pub open spec fn nearby_stop_ids(stops: Seq<NearbyStop>) -> Seq<Seq<char>> {
    Seq::new(stops.len(), |i: int| stops[i].id)
}

/// The test for a stop whose identifier is among `stop_ids`.
pub open spec fn is_among(stop_ids: Seq<Seq<char>>) -> spec_fn(Named) -> bool {
    |stop: Named| stop_ids.contains(stop.id)
}

/// A group reduced to its stops among `stop_ids`, otherwise unchanged.
pub open spec fn nearby_part(group: StopGroup, stop_ids: Seq<Seq<char>>) -> StopGroup {
    StopGroup {
        id: group.id,
        name: group.name,
        route_id: group.route_id,
        route_name: group.route_name,
        stops: group.stops.filter(is_among(stop_ids)),
    }
}

/// Every group reduced to its stops among `stop_ids`, one for one.
pub open spec fn nearby_parts(groups: Seq<StopGroup>, stop_ids: Seq<Seq<char>>) -> Seq<StopGroup> {
    Seq::new(groups.len(), |i: int| nearby_part(groups[i], stop_ids))
}

/// A group reduced to the nearby stops holds no other stops.
pub proof fn lemma_only_nearby_stops(group: StopGroup, stop_ids: Seq<Seq<char>>, i: int)
    requires
        0 <= i < nearby_part(group, stop_ids).stops.len(),
    ensures
        stop_ids.contains(nearby_part(group, stop_ids).stops[i].id),
        group.stops.contains(nearby_part(group, stop_ids).stops[i]),
{
    let kept = group.stops.filter(is_among(stop_ids));
    group.stops.lemma_filter_pred(is_among(stop_ids), i);
    assert(kept.contains(kept[i]));
    group.stops.lemma_filter_contains_rev(is_among(stop_ids), kept[i]);
}

/// The models of a list of per-route results.
pub open spec fn route_results(results: Seq<GetStopsForRouteResult>) -> Seq<Seq<StopGroup>> {
    Seq::new(results.len(), |i: int| results[i]@)
}

/// Collects the identifiers of the routes that serve the nearby stops, each
/// once, in the order in which the reply first names it.
pub fn collect_route_ids(reply: &GetStopsAtLocationResponse) -> (route_ids: Vec<String>)
    ensures
        views(route_ids@) == nearby_route_ids(reply@),
{
    let stops = &reply.data.stops;
    let ghost lists = Seq::new(reply@.len(), |i: int| reply@[i].routes);
    let mut route_ids: Vec<String> = Vec::new();
    let mut i: usize = 0;
    proof {
        assert(lists.take(0) =~= Seq::<Seq<Seq<char>>>::empty());
        assert(views(route_ids@) =~= distinct(lists.take(0).flatten()));
    }
    while i < stops.len()
        invariant
            i <= stops.len(),
            reply@ == views(stops@),
            lists == Seq::new(reply@.len(), |i: int| reply@[i].routes),
            views(route_ids@) == distinct(lists.take(i as int).flatten()),
        decreases stops.len() - i,
    {
        let routes = &stops[i].routes;
        let ghost done = lists.take(i as int).flatten();
        let mut j: usize = 0;
        proof {
            assert(done + views(routes@).take(0) =~= done);
        }
        while j < routes.len()
            invariant
                j <= routes.len(),
                views(route_ids@) == distinct(done + views(routes@).take(j as int)),
            decreases routes.len() - j,
        {
            let ghost before = views(route_ids@);
            let ghost seen = done + views(routes@).take(j as int);
            proof {
                assert(done + views(routes@).take(j + 1) =~= seen.push(routes@[j as int]@));
                assert(seen.push(routes@[j as int]@).drop_last() =~= seen);
                lemma_distinct_contains(seen, routes@[j as int]@);
            }
            if !is_listed(&route_ids, &routes[j].id) {
                let id = routes[j].id.clone();
                route_ids.push(id);
                proof {
                    assert(views(route_ids@) =~= before.push(id@));
                }
            }
            j += 1;
        }
        proof {
            assert(views(routes@).take(j as int) =~= views(routes@));
            assert(lists[i as int] == views(routes@));
            assert(lists.take(i + 1) =~= lists.take(i as int).push(views(routes@)));
            lists.take(i as int).lemma_flatten_push(views(routes@));
        }
        i += 1;
    }
    proof {
        assert(lists.take(i as int) =~= lists);
    }
    route_ids
}

/// Collects the identifiers of the nearby stops.
pub fn collect_stop_ids(reply: &GetStopsAtLocationResponse) -> (stop_ids: Vec<String>)
    ensures
        views(stop_ids@) == nearby_stop_ids(reply@),
{
    let stops = &reply.data.stops;
    let mut stop_ids: Vec<String> = Vec::new();
    let mut i: usize = 0;
    proof {
        assert(views(stop_ids@) =~= nearby_stop_ids(reply@).take(0));
    }
    while i < stops.len()
        invariant
            i <= stops.len(),
            reply@ == views(stops@),
            views(stop_ids@) == nearby_stop_ids(reply@).take(i as int),
        decreases stops.len() - i,
    {
        let ghost before = views(stop_ids@);
        let id = stops[i].id.clone();
        stop_ids.push(id);
        proof {
            assert(views(stop_ids@) =~= before.push(id@));
            assert(nearby_stop_ids(reply@).take(i + 1) =~= nearby_stop_ids(reply@).take(
                i as int,
            ).push(id@));
        }
        i += 1;
    }
    proof {
        assert(nearby_stop_ids(reply@).take(i as int) =~= nearby_stop_ids(reply@));
    }
    stop_ids
}

/// A copy of a group with only its stops among `stop_ids`.
pub fn keep_nearby_stops(group: &GetStopsForRouteResultGroup, stop_ids: &Vec<String>) -> (kept:
    GetStopsForRouteResultGroup)
    ensures
        kept@ == nearby_part(group@, views(stop_ids@)),
{
    let ghost all = views(group.stops@);
    let ghost test = is_among(views(stop_ids@));
    let mut stops: Vec<GetStopsForRouteResultGroupStop> = Vec::new();
    let mut i: usize = 0;
    proof {
        reveal(Seq::filter);
        assert(views(stops@) =~= all.take(0).filter(test));
    }
    while i < group.stops.len()
        invariant
            i <= group.stops.len(),
            all == views(group.stops@),
            test == is_among(views(stop_ids@)),
            views(stops@) == all.take(i as int).filter(test),
        decreases group.stops.len() - i,
    {
        let ghost before = views(stops@);
        proof {
            assert(all.take(i + 1) =~= all.take(i as int).push(all[i as int]));
            all.take(i as int).lemma_filter_push(all[i as int], test);
        }
        if is_listed(stop_ids, &group.stops[i].id) {
            let stop = GetStopsForRouteResultGroupStop {
                id: group.stops[i].id.clone(),
                name: group.stops[i].name.clone(),
            };
            stops.push(stop);
            proof {
                assert(views(stops@) =~= before.push(stop@));
            }
        }
        i += 1;
    }
    proof {
        assert(all.take(i as int) =~= all);
    }
    GetStopsForRouteResultGroup {
        id: group.id.clone(),
        name: group.name.clone(),
        route_id: group.route_id.clone(),
        route_name: group.route_name.clone(),
        stops,
    }
}

/// Joins the groups of the nearby routes, route by route, each group reduced
/// to its stops among `stop_ids`.
pub fn group_nearby_stops(results: &Vec<GetStopsForRouteResult>, stop_ids: &Vec<String>) -> (grouped:
    GetGroupedStopsAtLocation)
    ensures
        grouped@ == nearby_parts(route_results(results@).flatten(), views(stop_ids@)),
{
    let ghost lists = route_results(results@);
    let ghost ids = views(stop_ids@);
    let mut groups: Vec<GetStopsForRouteResultGroup> = Vec::new();
    let mut i: usize = 0;
    proof {
        assert(lists.take(0) =~= Seq::<Seq<StopGroup>>::empty());
        assert(views(groups@) =~= nearby_parts(lists.take(0).flatten(), ids));
    }
    while i < results.len()
        invariant
            i <= results.len(),
            lists == route_results(results@),
            ids == views(stop_ids@),
            views(groups@) == nearby_parts(lists.take(i as int).flatten(), ids),
        decreases results.len() - i,
    {
        let result = &results[i];
        let ghost done = lists.take(i as int).flatten();
        let mut j: usize = 0;
        proof {
            assert(done + result@.take(0) =~= done);
        }
        while j < result.groups.len()
            invariant
                j <= result.groups.len(),
                ids == views(stop_ids@),
                views(groups@) == nearby_parts(done + result@.take(j as int), ids),
            decreases result.groups.len() - j,
        {
            let ghost before = views(groups@);
            let kept = keep_nearby_stops(&result.groups[j], stop_ids);
            groups.push(kept);
            proof {
                let so_far = done + result@.take(j as int);
                assert(result@[j as int] == result.groups@[j as int]@);
                assert(done + result@.take(j + 1) =~= so_far.push(result@[j as int]));
                assert(views(groups@) =~= before.push(kept@));
                assert(views(groups@) =~= nearby_parts(done + result@.take(j + 1), ids));
            }
            j += 1;
        }
        proof {
            assert(result@.take(j as int) =~= result@);
            assert(lists.take(i + 1) =~= lists.take(i as int).push(result@));
            lists.take(i as int).lemma_flatten_push(result@);
        }
        i += 1;
    }
    proof {
        assert(lists.take(i as int) =~= lists);
    }
    GetGroupedStopsAtLocation { groups }
}

} // verus!
