//! The transit service: what to ask the upstream transit service, and what
//! its replies amount to.

use vstd::prelude::*;
use vstd::string::*;
use crate::arrivals::{
    arrival_order,
    collect_stop_arrivals,
    is_consistent,
    lemma_soonest_first,
    lemma_stop_arrivals_consistent,
    sort_by_arrival,
    stop_arrivals,
};
use crate::clock::{current_instant, Instant};
use crate::errors::{TransitClientError, TransitClientErrorView};
use crate::grouping::{group_stops_for_route, route_groups};
use crate::maps_service::MapsService;
use crate::model::{views, Named, StopArrival, StopGroup};
use crate::percent::{percent_encode, percent_encoded};
use crate::records::{FindTransitRoutesResult, GetStopsForRouteResult, StopInformation};
use crate::search::{matching_routes, search_routes};
use crate::sorting::{
    is_stable_sort,
    lemma_flatten_any_order,
    lemma_flatten_element,
    lemma_map_any_order,
    lemma_stable_sort_keeps_elements,
    lemma_stable_sort_unique,
};
use crate::types::mta_get_routes_response::GetRoutesResponse;
use crate::types::mta_get_stops_for_route_response::GetStopsForRouteResponse;
use crate::types::response_formats::GetStopInfoResponse;
use crate::upstream::{outcome_view, Checked};

verus! {

/// Where the transit service is, the key to present to it, and the places
/// service that resolves place identifiers.
pub struct TransitServiceConfig {
    pub host: String,
    pub api_key: String,
    pub maps_service: MapsService,
}

/// The transit service.
pub struct TransitService {
    config: TransitServiceConfig,
}

/// The reply to the stop-monitoring call for one stop.
pub struct StopReply {
    pub stop_id: String,
    pub reply: Checked<GetStopInfoResponse>,
}

/// The address of the stop-monitoring call.
pub open spec fn stop_monitoring_address(
    host: Seq<char>,
    api_key: Seq<char>,
    stop_id: Seq<char>,
) -> Seq<char> {
    host + "/api/siri/stop-monitoring.json?key="@ + api_key + "&MonitoringRef="@ + stop_id
}

/// The address of the stops-for-route call.
pub open spec fn stops_for_route_address(
    host: Seq<char>,
    api_key: Seq<char>,
    route_id: Seq<char>,
) -> Seq<char> {
    host + "/api/where/stops-for-route/"@ + percent_encoded(route_id) + ".json?key="@ + api_key
        + "&includePolylines=false&version=2"@
}

/// The address of the routes-for-agency call.
pub open spec fn routes_address(host: Seq<char>, api_key: Seq<char>) -> Seq<char> {
    host + "/api/where/routes-for-agency/MTA%20NYCT.json?key="@ + api_key
}

/// The address of the stops-for-location call.
pub open spec fn stops_for_location_address(
    host: Seq<char>,
    api_key: Seq<char>,
    lat: Seq<char>,
    lon: Seq<char>,
) -> Seq<char> {
    host + "/api/where/stops-for-location.json?lat="@ + lat + "&lon="@ + lon
        + "&latSpan=0.005&lonSpan=0.005&key="@ + api_key
}

/// What the reply for one stop yields at the time `now`.
pub open spec fn stop_outcome(
    stop_id: Seq<char>,
    reply: Checked<GetStopInfoResponse>,
    now: Instant,
) -> Result<Seq<StopArrival>, TransitClientErrorView> {
    match reply.accepted() {
        Ok(body) => Ok(stop_arrivals(stop_id, now, body@)),
        Err(error) => Err(error),
    }
}

/// What the reply to the stops-for-route call yields.
pub open spec fn stops_for_route_outcome(
    route_id: Seq<char>,
    reply: Checked<GetStopsForRouteResponse>,
) -> Result<Seq<StopGroup>, TransitClientErrorView> {
    match reply.accepted_or_not_found() {
        Ok(body) => Ok(route_groups(route_id, body@)),
        Err(error) => Err(error),
    }
}

/// What the reply to the routes-for-agency call yields for a search text.
pub open spec fn routes_outcome(search: Seq<char>, reply: Checked<GetRoutesResponse>) -> Result<
    Seq<Named>,
    TransitClientErrorView,
> {
    match reply.accepted() {
        Ok(body) => Ok(matching_routes(body@, search)),
        Err(error) => Err(error),
    }
}

/// The failure of the first stop, in request order, whose reply is a failure.
pub open spec fn first_failure(replies: Seq<StopReply>) -> Option<TransitClientErrorView>
    decreases replies.len(),
{
    if replies.len() == 0 {
        None
    } else {
        match replies.first().reply.accepted() {
            Err(error) => Some(error),
            Ok(_) => first_failure(replies.drop_first()),
        }
    }
}

/// The arrivals that one reply reports at the time `now`; none where the
/// reply is a failure.
pub open spec fn reported_at(now: Instant) -> spec_fn(StopReply) -> Seq<StopArrival> {
    |reply: StopReply|
        match reply.reply.accepted() {
            Ok(body) => stop_arrivals(reply.stop_id@, now, body@),
            Err(_) => Seq::empty(),
        }
}

/// The arrivals that each reply reports at the time `now`, stop by stop.
pub open spec fn reported_arrivals(replies: Seq<StopReply>, now: Instant) -> Seq<Seq<StopArrival>> {
    replies.map_values(reported_at(now))
}

/// `outcome` is what the replies for several stops yield together at the time
/// `now`: where a reply is a failure, an internal error with the text of the
/// first failure in request order; otherwise the arrivals of all stops, the
/// soonest first, those without minutes last, ties in request order.
pub open spec fn is_merged_outcome(
    outcome: Result<Seq<StopArrival>, TransitClientErrorView>,
    replies: Seq<StopReply>,
    now: Instant,
) -> bool {
    match first_failure(replies) {
        Some(error) => outcome == Err::<Seq<StopArrival>, TransitClientErrorView>(
            TransitClientErrorView::Internal(error.message()),
        ),
        None => match outcome {
            Ok(arrivals) => is_stable_sort(
                arrivals,
                reported_arrivals(replies, now).flatten(),
                arrival_order(),
            ),
            Err(_) => false,
        },
    }
}

/// The merged arrivals are the arrivals that the stops report one after the
/// other, each as often, in whatever order the replies came in.
pub proof fn lemma_merge_ignores_reply_order(
    in_order: Seq<StopReply>,
    as_completed: Seq<StopReply>,
    now: Instant,
    merged: Seq<StopArrival>,
)
    requires
        as_completed.to_multiset() == in_order.to_multiset(),
        is_merged_outcome(Ok(merged), as_completed, now),
    ensures
        merged.to_multiset() == reported_arrivals(in_order, now).flatten().to_multiset(),
{
    lemma_stable_sort_keeps_elements(
        merged,
        reported_arrivals(as_completed, now).flatten(),
        arrival_order(),
    );
    lemma_map_any_order(as_completed, in_order, reported_at(now));
    lemma_flatten_any_order(
        reported_arrivals(as_completed, now),
        reported_arrivals(in_order, now),
    );
}

/// In the merged arrivals, an arrival due in fewer minutes stands before one
/// due in more, and an arrival without minutes stands behind every arrival
/// with minutes.
pub proof fn lemma_merged_soonest_first(
    replies: Seq<StopReply>,
    now: Instant,
    merged: Seq<StopArrival>,
    i: int,
    j: int,
)
    requires
        is_merged_outcome(Ok(merged), replies, now),
        0 <= i < merged.len(),
        0 <= j < merged.len(),
    ensures
        merged[i].minutes_until_arrival is Some && merged[j].minutes_until_arrival is Some
            && merged[i].minutes_until_arrival->0 < merged[j].minutes_until_arrival->0 ==> i < j,
        merged[i].minutes_until_arrival is None && merged[j].minutes_until_arrival is Some ==> j
            < i,
{
    lemma_soonest_first(merged, i, j);
}

/// The replies for several stops yield one outcome at a given time, and no
/// other.
pub proof fn lemma_merged_outcome_unique(
    replies: Seq<StopReply>,
    now: Instant,
    one: Result<Seq<StopArrival>, TransitClientErrorView>,
    other: Result<Seq<StopArrival>, TransitClientErrorView>,
)
    requires
        is_merged_outcome(one, replies, now),
        is_merged_outcome(other, replies, now),
    ensures
        one == other,
{
    if first_failure(replies) is None {
        lemma_stable_sort_unique(
            one->Ok_0,
            other->Ok_0,
            reported_arrivals(replies, now).flatten(),
            arrival_order(),
        );
    }
}

/// Every merged arrival is consistent: it has no minutes unless its expected
/// time is there and is a date-time.
pub proof fn lemma_merged_consistent(
    replies: Seq<StopReply>,
    now: Instant,
    merged: Seq<StopArrival>,
    i: int,
)
    requires
        is_merged_outcome(Ok(merged), replies, now),
        0 <= i < merged.len(),
    ensures
        is_consistent(merged[i]),
{
    let reported = reported_arrivals(replies, now);
    lemma_stable_sort_keeps_elements(merged, reported.flatten(), arrival_order());
    assert(merged.contains(merged[i]));
    vstd::seq_lib::to_multiset_contains(merged, merged[i]);
    vstd::seq_lib::to_multiset_contains(reported.flatten(), merged[i]);
    let at = lemma_flatten_element(reported, merged[i]);
    match replies[at.0].reply.accepted() {
        Ok(body) => {
            lemma_stop_arrivals_consistent(replies[at.0].stop_id@, now, body@, at.1);
        },
        Err(_) => {},
    }
}

/// The model of an outcome that carries arrivals.
pub open spec fn arrivals_view(outcome: Result<Vec<StopInformation>, TransitClientError>) -> Result<
    Seq<StopArrival>,
    TransitClientErrorView,
> {
    match outcome {
        Ok(arrivals) => Ok(views(arrivals@)),
        Err(error) => Err(error@),
    }
}

impl TransitService {
    /// The host that the service calls.
    pub closed spec fn host(&self) -> Seq<char> {
        self.config.host@
    }

    /// The key that the service presents.
    pub closed spec fn api_key(&self) -> Seq<char> {
        self.config.api_key@
    }

    /// The places service that resolves place identifiers.
    pub closed spec fn maps(&self) -> MapsService {
        self.config.maps_service
    }

    /// A service for the given host, key and places service.
    pub fn new(config: TransitServiceConfig) -> (service: Self)
        ensures
            service.host() == config.host@,
            service.api_key() == config.api_key@,
            service.maps() == config.maps_service,
    {
        TransitService { config }
    }

    /// The places service that resolves place identifiers.
    pub fn maps_service(&self) -> (maps: &MapsService)
        ensures
            *maps == self.maps(),
    {
        &self.config.maps_service
    }

    /// The address to call for the arrivals at a stop.
    pub fn stop_monitoring_url(&self, stop_id: &str) -> (url: String)
        ensures
            url@ == stop_monitoring_address(self.host(), self.api_key(), stop_id@),
    {
        let mut url = self.config.host.clone();
        url.append("/api/siri/stop-monitoring.json?key=");
        url.append(self.config.api_key.as_str());
        url.append("&MonitoringRef=");
        url.append(stop_id);
        url
    }

    /// The address to call for the stops of a route.
    pub fn stops_for_route_url(&self, route_id: &str) -> (url: String)
        ensures
            url@ == stops_for_route_address(self.host(), self.api_key(), route_id@),
    {
        let encoded = percent_encode(route_id);
        let mut url = self.config.host.clone();
        url.append("/api/where/stops-for-route/");
        url.append(encoded.as_str());
        url.append(".json?key=");
        url.append(self.config.api_key.as_str());
        url.append("&includePolylines=false&version=2");
        url
    }

    /// The address to call for the routes of the agency.
    pub fn routes_url(&self) -> (url: String)
        ensures
            url@ == routes_address(self.host(), self.api_key()),
    {
        let mut url = self.config.host.clone();
        url.append("/api/where/routes-for-agency/MTA%20NYCT.json?key=");
        url.append(self.config.api_key.as_str());
        url
    }

    /// The address to call for the stops near a point.
    pub fn stops_for_location_url(&self, lat: &str, lon: &str) -> (url: String)
        ensures
            url@ == stops_for_location_address(self.host(), self.api_key(), lat@, lon@),
    {
        let mut url = self.config.host.clone();
        url.append("/api/where/stops-for-location.json?lat=");
        url.append(lat);
        url.append("&lon=");
        url.append(lon);
        url.append("&latSpan=0.005&lonSpan=0.005&key=");
        url.append(self.config.api_key.as_str());
        url
    }

    /// The groups of stops along a route that the reply describes. The status
    /// 404 is answered with `ResourceNotFound`, every other failure with
    /// `Internal`.
    pub fn get_stops_for_route(
        &self,
        route_id: String,
        reply: &Checked<GetStopsForRouteResponse>,
    ) -> (outcome: Result<GetStopsForRouteResult, TransitClientError>)
        ensures
            outcome_view(outcome) == stops_for_route_outcome(route_id@, *reply),
    {
        match reply.body_or_not_found() {
            Ok(body) => Ok(group_stops_for_route(&route_id, body)),
            Err(error) => Err(error),
        }
    }

    /// The routes whose short name contains the search text, letter case
    /// aside, in upstream order.
    pub fn get_routes(&self, search: &str, reply: &Checked<GetRoutesResponse>) -> (outcome: Result<
        FindTransitRoutesResult,
        TransitClientError,
    >)
        ensures
            outcome_view(outcome) == routes_outcome(search@, *reply),
    {
        match reply.body() {
            Ok(body) => Ok(search_routes(body, search)),
            Err(error) => Err(error),
        }
    }

    /// The arrivals at a stop that the reply reports at the time `now`.
    pub fn fetch_stop_info_at(
        &self,
        stop_id: &str,
        reply: &Checked<GetStopInfoResponse>,
        now: Instant,
    ) -> (outcome: Result<Vec<StopInformation>, TransitClientError>)
        ensures
            arrivals_view(outcome) == stop_outcome(stop_id@, *reply, now),
    {
        match reply.body() {
            Ok(body) => Ok(collect_stop_arrivals(stop_id, body, now)),
            Err(error) => Err(error),
        }
    }

    /// The arrivals at several stops that the replies report at the time
    /// `now`, merged and ordered; a failure where any reply is a failure.
    pub fn fetch_multiple_stop_arrivals_at(&self, replies: &Vec<StopReply>, now: Instant) -> (outcome:
        Result<Vec<StopInformation>, TransitClientError>)
        ensures
            is_merged_outcome(arrivals_view(outcome), replies@, now),
    {
        let ghost reported = reported_arrivals(replies@, now);
        let mut merged: Vec<StopInformation> = Vec::new();
        let mut i: usize = 0;
        proof {
            assert(replies@.skip(0) =~= replies@);
            assert(reported.take(0) =~= Seq::<Seq<StopArrival>>::empty());
            assert(views(merged@) =~= reported.take(0).flatten());
        }
        while i < replies.len()
            invariant
                i <= replies.len(),
                reported == reported_arrivals(replies@, now),
                first_failure(replies@) == first_failure(replies@.skip(i as int)),
                views(merged@) == reported.take(i as int).flatten(),
            decreases replies.len() - i,
        {
            proof {
                assert(replies@.skip(i as int).drop_first() =~= replies@.skip(i + 1));
                assert(replies@.skip(i as int).first() == replies@[i as int]);
            }
            match replies[i].reply.body() {
                Ok(body) => {
                    let ghost before = views(merged@);
                    let mut arrivals = collect_stop_arrivals(
                        replies[i].stop_id.as_str(),
                        body,
                        now,
                    );
                    let ghost added = views(arrivals@);
                    merged.append(&mut arrivals);
                    proof {
                        assert(views(merged@) =~= before + added);
                        assert(reported[i as int] == added);
                        assert(reported.take(i + 1) =~= reported.take(i as int).push(added));
                        reported.take(i as int).lemma_flatten_push(added);
                    }
                },
                Err(error) => {
                    return Err(TransitClientError::Internal(error.to_string()));
                },
            }
            i += 1;
        }
        proof {
            assert(reported.take(i as int) =~= reported);
        }
        Ok(sort_by_arrival(merged))
    }

    /// The arrivals at several stops that the replies report, merged and
    /// ordered, the minutes counted from the present reading of the clock.
    pub fn fetch_multiple_stop_arrivals(&self, replies: &Vec<StopReply>) -> (outcome: Result<
        Vec<StopInformation>,
        TransitClientError,
    >)
        ensures
            exists|now: Instant| is_merged_outcome(arrivals_view(outcome), replies@, now),
    {
        let now = current_instant();
        self.fetch_multiple_stop_arrivals_at(replies, now)
    }

    /// The arrivals at a stop that the reply reports, the minutes counted
    /// from the present reading of the clock.
    pub fn fetch_stop_info(&self, stop_id: &str, reply: &Checked<GetStopInfoResponse>) -> (outcome:
        Result<Vec<StopInformation>, TransitClientError>)
        ensures
            exists|now: Instant| arrivals_view(outcome) == stop_outcome(stop_id@, *reply, now),
    {
        let now = current_instant();
        self.fetch_stop_info_at(stop_id, reply, now)
    }
}

} // verus!
