//! The routes-for-agency reply: a flat list of routes.

use vstd::prelude::*;
use crate::model::{views, Named};

verus! {

/// A route of the agency.
#[allow(non_snake_case)]
pub struct GetRoutesResponseRoute {
    pub id: String,
    pub shortName: String,
}

impl View for GetRoutesResponseRoute {
    type V = Named;

    open spec fn view(&self) -> Named {
        Named { id: self.id@, name: self.shortName@ }
    }
}

/// The list of routes, in upstream order.
pub struct GetRoutesResponseData {
    pub list: Vec<GetRoutesResponseRoute>,
}

impl View for GetRoutesResponseData {
    type V = Seq<Named>;

    open spec fn view(&self) -> Seq<Named> {
        views(self.list@)
    }
}

/// The whole routes-for-agency reply.
pub struct GetRoutesResponse {
    pub data: GetRoutesResponseData,
}

impl View for GetRoutesResponse {
    type V = Seq<Named>;

    open spec fn view(&self) -> Seq<Named> {
        self.data@
    }
}

} // verus!
