//! Search for routes by name.

use vstd::prelude::*;
use crate::app_error::{internal_server_error, AppError, AppErrorView};
use crate::errors::TransitClientError;
use crate::model::{views, Named};
use crate::records::FindTransitRoutesResult;
use crate::upstream::outcome_view;

verus! {

/// The request parameter: the text to search for.
pub struct GetTransitRoutesPayload {
    pub search: String,
}

/// One route as the reply shows it.
pub struct GetTransitRoutesResponseDataRoute {
    pub id: String,
    pub name: String,
}

impl View for GetTransitRoutesResponseDataRoute {
    type V = Named;

    open spec fn view(&self) -> Named {
        Named { id: self.id@, name: self.name@ }
    }
}

/// The routes of a reply.
pub struct GetTransitRoutesResponseData {
    pub routes: Vec<GetTransitRoutesResponseDataRoute>,
}

impl View for GetTransitRoutesResponseData {
    type V = Seq<Named>;

    open spec fn view(&self) -> Seq<Named> {
        views(self.routes@)
    }
}

/// The reply: the routes under `data`.
pub struct GetTransitRoutesResponse {
    pub data: GetTransitRoutesResponseData,
}

impl View for GetTransitRoutesResponse {
    type V = Seq<Named>;

    open spec fn view(&self) -> Seq<Named> {
        self.data@
    }
}

/// What the endpoint answers: the routes found, in their order; an internal
/// server error where the search failed.
pub open spec fn routes_reply(found: Result<FindTransitRoutesResult, TransitClientError>) -> Result<
    Seq<Named>,
    AppErrorView,
> {
    match found {
        Ok(result) => Ok(result@),
        Err(_) => Err(internal_server_error()),
    }
}

/// Builds the reply of the endpoint from what the transit service found.
pub fn get_transit_routes(found: &Result<FindTransitRoutesResult, TransitClientError>) -> (reply:
    Result<GetTransitRoutesResponse, AppError>)
    ensures
        outcome_view(reply) == routes_reply(*found),
{
    match found {
        Ok(result) => {
            let mut routes: Vec<GetTransitRoutesResponseDataRoute> = Vec::new();
            let mut i: usize = 0;
            proof {
                assert(views(routes@) =~= result@.take(0));
            }
            while i < result.routes.len()
                invariant
                    i <= result.routes.len(),
                    views(routes@) == result@.take(i as int),
                decreases result.routes.len() - i,
            {
                let ghost before = views(routes@);
                let route = GetTransitRoutesResponseDataRoute {
                    id: result.routes[i].id.clone(),
                    name: result.routes[i].name.clone(),
                };
                routes.push(route);
                proof {
                    assert(views(routes@) =~= before.push(route@));
                    assert(result@.take(i + 1) =~= result@.take(i as int).push(result@[i as int]));
                }
                i += 1;
            }
            proof {
                assert(result@.take(i as int) =~= result@);
            }
            Ok(GetTransitRoutesResponse { data: GetTransitRoutesResponseData { routes } })
        },
        Err(_) => Err(AppError::internal()),
    }
}

} // verus!
