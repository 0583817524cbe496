//! Search among the routes of the agency by name.

use vstd::prelude::*;
use crate::model::{views, Named};
use crate::records::{FindTransitRoutesResult, FindTransitRoutesResultRoute};
use crate::text::{contains_text, lowercase_of, occurs_in, to_lowercase};
use crate::types::mta_get_routes_response::GetRoutesResponse;

verus! {

/// A name matches a search text where the lower-case search text is a
/// contiguous part of the lower-case name.
pub open spec fn name_matches(name: Seq<char>, search: Seq<char>) -> bool {
    occurs_in(lowercase_of(search), lowercase_of(name))
}

/// The test for a route whose name matches `search`.
pub open spec fn route_matches(search: Seq<char>) -> spec_fn(Named) -> bool {
    |route: Named| name_matches(route.name, search)
}

/// The routes whose name matches `search`, in their order.
pub open spec fn matching_routes(routes: Seq<Named>, search: Seq<char>) -> Seq<Named> {
    routes.filter(route_matches(search))
}

/// Finds the routes whose short name contains the search text, letter case
/// aside, in upstream order.
pub fn search_routes(reply: &GetRoutesResponse, search: &str) -> (found: FindTransitRoutesResult)
    ensures
        found@ == matching_routes(reply@, search@),
{
    let wanted = to_lowercase(search);
    let routes = &reply.data.list;
    let ghost all = views(routes@);
    let ghost test = route_matches(search@);
    let mut found: Vec<FindTransitRoutesResultRoute> = Vec::new();
    let mut i: usize = 0;
    proof {
        reveal(Seq::filter);
        assert(views(found@) =~= all.take(0).filter(test));
    }
    while i < routes.len()
        invariant
            i <= routes.len(),
            all == views(routes@),
            test == route_matches(search@),
            wanted@ == lowercase_of(search@),
            views(found@) == all.take(i as int).filter(test),
        decreases routes.len() - i,
    {
        let ghost before = views(found@);
        proof {
            assert(all.take(i + 1) =~= all.take(i as int).push(all[i as int]));
            all.take(i as int).lemma_filter_push(all[i as int], test);
        }
        let name = to_lowercase(routes[i].shortName.as_str());
        if contains_text(name.as_str(), wanted.as_str()) {
            let route = FindTransitRoutesResultRoute {
                id: routes[i].id.clone(),
                name: routes[i].shortName.clone(),
            };
            found.push(route);
            proof {
                assert(views(found@) =~= before.push(route@));
            }
        }
        i += 1;
    }
    proof {
        assert(all.take(i as int) =~= all);
    }
    FindTransitRoutesResult { routes: found }
}

} // verus!
