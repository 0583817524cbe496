use transit_aggregator::errors::TransitClientError;
use transit_aggregator::grouping::{find_route_name, find_stop_name, group_stops_for_route};
use transit_aggregator::maps_service::{MapsService, MapsServiceConfig};
use transit_aggregator::records::{
    GetStopsForRouteResult, GetStopsForRouteResultGroup, GetStopsForRouteResultGroupStop,
};
use transit_aggregator::routes::get_transit_stops_for_route::{
    get_transit_stops_for_route, GetTransitStopsForRoute,
};
use transit_aggregator::transit_service::{TransitService, TransitServiceConfig};
use transit_aggregator::types::mta_get_stops_for_route_response::{
    GetStopsForRouteResponse, GetStopsForRouteResponseData, GetStopsForRouteResponseDataEntry,
    GetStopsForRouteResponseDataEntryStopGrouping,
    GetStopsForRouteResponseDataEntryStopGroupingStopGroup,
    GetStopsForRouteResponseDataEntryStopGroupingStopGroupName,
    GetStopsForRouteResponseDataEntryStopGroupingType, GetStopsForRouteResponseDataReferences,
    GetStopsForRouteResponseDataReferencesRoute, GetStopsForRouteResponseDataReferencesStop,
};
use transit_aggregator::upstream::Checked;

fn service() -> TransitService {
    TransitService::new(TransitServiceConfig {
        host: "http://mta.test".to_string(),
        api_key: "key".to_string(),
        maps_service: MapsService::new(MapsServiceConfig {
            api_key: "key".to_string(),
            host: "http://maps.test".to_string(),
        }),
    })
}

fn stop(id: &str, name: &str) -> GetStopsForRouteResponseDataReferencesStop {
    GetStopsForRouteResponseDataReferencesStop { id: id.to_string(), name: name.to_string() }
}

fn route(id: &str, name: &str) -> GetStopsForRouteResponseDataReferencesRoute {
    GetStopsForRouteResponseDataReferencesRoute { id: id.to_string(), shortName: name.to_string() }
}

fn group(id: &str, name: &str, stops: &[&str]) -> GetStopsForRouteResponseDataEntryStopGroupingStopGroup {
    GetStopsForRouteResponseDataEntryStopGroupingStopGroup {
        id: id.to_string(),
        name: GetStopsForRouteResponseDataEntryStopGroupingStopGroupName { name: name.to_string() },
        stopIds: stops.iter().map(|s| s.to_string()).collect(),
    }
}

fn grouping(
    groups: Vec<GetStopsForRouteResponseDataEntryStopGroupingStopGroup>,
) -> GetStopsForRouteResponseDataEntryStopGrouping {
    GetStopsForRouteResponseDataEntryStopGrouping {
        kind: GetStopsForRouteResponseDataEntryStopGroupingType::Direction,
        stopGroups: groups,
    }
}

fn reply(
    groupings: Vec<GetStopsForRouteResponseDataEntryStopGrouping>,
    stops: Vec<GetStopsForRouteResponseDataReferencesStop>,
    routes: Vec<GetStopsForRouteResponseDataReferencesRoute>,
) -> GetStopsForRouteResponse {
    GetStopsForRouteResponse {
        data: GetStopsForRouteResponseData {
            entry: GetStopsForRouteResponseDataEntry { stopGroupings: groupings },
            references: GetStopsForRouteResponseDataReferences { stops, routes },
        },
    }
}

fn pairs(stops: &[GetStopsForRouteResultGroupStop]) -> Vec<(String, String)> {
    stops.iter().map(|s| (s.id.clone(), s.name.clone())).collect()
}

#[test]
fn get_transit_stops_for_route_get_response() {
    let service = service();
    let payload = GetTransitStopsForRoute { route_id: "B1+".to_string() };

    let mock_response = reply(
        vec![grouping(vec![group("group id", "group name", &["s1", "s2"])])],
        vec![stop("s1", "stop 1"), stop("s2", "stop 2")],
        vec![],
    );

    // The plus sign of the route identifier is encoded in the address.
    assert_eq!(
        service.stops_for_route_url(&payload.route_id),
        "http://mta.test/api/where/stops-for-route/B1%2B.json?key=key&includePolylines=false&version=2"
    );

    let found =
        service.get_stops_for_route(payload.route_id.clone(), &Checked::Decoded(mock_response));
    let body = get_transit_stops_for_route(&found).unwrap();

    assert_eq!(body.data.groups.len(), 1);
    assert_eq!(body.data.groups[0].id, "group id");
    assert_eq!(body.data.groups[0].name, "group name");
    assert_eq!(body.data.groups[0].stops.len(), 2);
    assert_eq!(body.data.groups[0].stops[0].id, "s1");
    assert_eq!(body.data.groups[0].stops[0].name, "stop 1");
    assert_eq!(body.data.groups[0].stops[1].id, "s2");
    assert_eq!(body.data.groups[0].stops[1].name, "stop 2");
}

#[test]
fn test_not_found() {
    let service = service();
    let found = service.get_stops_for_route(
        "B1+".to_string(),
        &Checked::Rejected(404, "HTTP status client error (404 Not Found)".to_string()),
    );
    assert!(matches!(found, Err(TransitClientError::ResourceNotFound)));

    let error = get_transit_stops_for_route(&found).err().unwrap();
    assert_eq!(error.code, 404);
    assert_eq!(error.message, "Route does not exist");
}

#[test]
fn other_failures_of_the_route_call_are_internal() {
    let service = service();
    for reply in [
        Checked::Failed("boom".to_string()),
        Checked::Rejected(403, "boom".to_string()),
        Checked::Rejected(500, "boom".to_string()),
        Checked::Undecodable("boom".to_string()),
    ] {
        let found = service.get_stops_for_route("B1".to_string(), &reply);
        match &found {
            Err(TransitClientError::Internal(text)) => assert_eq!(text, "boom"),
            _ => panic!("expected an internal error"),
        }
        let error = get_transit_stops_for_route(&found).err().unwrap();
        assert_eq!(error.code, 500);
        assert_eq!(error.message, "Internal Server Error");
    }
}

#[test]
fn a_stop_without_a_reference_is_left_out() {
    let mock_response = reply(
        vec![grouping(vec![group("g", "north", &["s1", "s3", "s2"])])],
        vec![stop("s1", "stop 1"), stop("s2", "stop 2")],
        vec![route("R", "R name")],
    );
    let result = group_stops_for_route(&"R".to_string(), &mock_response);
    assert_eq!(result.groups.len(), 1);
    assert_eq!(
        pairs(&result.groups[0].stops),
        vec![
            ("s1".to_string(), "stop 1".to_string()),
            ("s2".to_string(), "stop 2".to_string())
        ]
    );
    assert_eq!(result.groups[0].route_id, "R");
    assert_eq!(result.groups[0].route_name, "R name");
}

#[test]
fn groups_come_in_upstream_order_over_all_groupings() {
    let mock_response = reply(
        vec![
            grouping(vec![group("g0", "north", &["s2", "s1"]), group("g1", "south", &[])]),
            grouping(vec![]),
            grouping(vec![group("g2", "loop", &["s1", "s1"])]),
        ],
        vec![stop("s1", "one"), stop("s2", "two")],
        vec![route("X", "wrong"), route("R", "right"), route("R", "late")],
    );
    let result = group_stops_for_route(&"R".to_string(), &mock_response);
    let ids: Vec<String> = result.groups.iter().map(|g| g.id.clone()).collect();
    assert_eq!(ids, vec!["g0", "g1", "g2"]);
    let names: Vec<String> = result.groups.iter().map(|g| g.name.clone()).collect();
    assert_eq!(names, vec!["north", "south", "loop"]);
    assert_eq!(
        pairs(&result.groups[0].stops),
        vec![("s2".to_string(), "two".to_string()), ("s1".to_string(), "one".to_string())]
    );
    assert_eq!(result.groups[1].stops.len(), 0);
    assert_eq!(
        pairs(&result.groups[2].stops),
        vec![("s1".to_string(), "one".to_string()), ("s1".to_string(), "one".to_string())]
    );
    for group in &result.groups {
        assert_eq!(group.route_id, "R");
        assert_eq!(group.route_name, "right");
    }
}

#[test]
fn a_route_without_a_listed_name_has_the_empty_name() {
    let mock_response = reply(
        vec![grouping(vec![group("g", "north", &["s1"])])],
        vec![stop("s1", "one")],
        vec![route("other", "Other")],
    );
    let result = group_stops_for_route(&"R".to_string(), &mock_response);
    assert_eq!(result.groups[0].route_name, "");
    assert_eq!(find_route_name(&vec![], &"R".to_string()), "");
}

#[test]
fn of_two_references_to_a_stop_the_last_gives_the_name() {
    let stops = vec![stop("s1", "old"), stop("s2", "two"), stop("s1", "new")];
    assert_eq!(find_stop_name(&stops, &"s1".to_string()), Some(&"new".to_string()));
    assert_eq!(find_stop_name(&stops, &"s2".to_string()), Some(&"two".to_string()));
    assert_eq!(find_stop_name(&stops, &"s3".to_string()), None);
}

#[test]
fn a_reply_without_groupings_gives_no_groups() {
    let result = group_stops_for_route(&"1".to_string(), &reply(vec![], vec![], vec![]));
    assert_eq!(result.groups.len(), 0);
}

#[test]
fn the_route_endpoint_shows_groups_without_their_route() {
    let found = Ok(GetStopsForRouteResult {
        groups: vec![
            GetStopsForRouteResultGroup {
                id: "g0".to_string(),
                name: "north".to_string(),
                route_id: "R".to_string(),
                route_name: "right".to_string(),
                stops: vec![GetStopsForRouteResultGroupStop {
                    id: "s".to_string(),
                    name: "stop".to_string(),
                }],
            },
            GetStopsForRouteResultGroup {
                id: "g1".to_string(),
                name: "south".to_string(),
                route_id: "R".to_string(),
                route_name: "right".to_string(),
                stops: vec![],
            },
        ],
    });
    let body = get_transit_stops_for_route(&found).unwrap();
    assert_eq!(body.data.groups.len(), 2);
    assert_eq!(body.data.groups[0].id, "g0");
    assert_eq!(body.data.groups[0].name, "north");
    assert_eq!(body.data.groups[0].stops.len(), 1);
    assert_eq!(body.data.groups[0].stops[0].id, "s");
    assert_eq!(body.data.groups[0].stops[0].name, "stop");
    assert_eq!(body.data.groups[1].id, "g1");
    assert_eq!(body.data.groups[1].stops.len(), 0);
}

#[test]
fn the_route_identifier_is_percent_encoded_byte_by_byte() {
    let service = service();
    assert_eq!(
        service.stops_for_route_url("MTA NYCT_B1/é~-._"),
        "http://mta.test/api/where/stops-for-route/MTA%20NYCT_B1%2F%C3%A9~-._.json?key=key&includePolylines=false&version=2"
    );
    assert_eq!(
        service.stops_for_route_url(""),
        "http://mta.test/api/where/stops-for-route/.json?key=key&includePolylines=false&version=2"
    );
}
