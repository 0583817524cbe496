use transit_aggregator::errors::TransitClientError;
use transit_aggregator::json::{JsonMember, JsonValue};
use transit_aggregator::location::{
    collect_route_ids, collect_stop_ids, group_nearby_stops, keep_nearby_stops,
};
use transit_aggregator::lookup::{LocationLookup, LookupAction, LookupEvent};
use transit_aggregator::maps_service::{MapsService, MapsServiceConfig};
use transit_aggregator::records::{
    GetGroupedStopsAtLocation, GetStopsForRouteResult, GetStopsForRouteResultGroup,
    GetStopsForRouteResultGroupStop,
};
use transit_aggregator::routes::get_transit_stops_at_location::{
    get_transit_stops_at_location, show_route, GetTransitStopsAtLocation,
};
use transit_aggregator::transit_service::{TransitService, TransitServiceConfig};
use transit_aggregator::types::lat_long_location::GetStopsAtLocationInput;
use transit_aggregator::types::mta_get_stops_at_location_response::{
    GetStopsAtLocationResponse, GetStopsAtLocationResponseStops, StopAtLocation,
    StopAtLocationRoute,
};
use transit_aggregator::types::mta_get_stops_for_route_response::{
    GetStopsForRouteResponse, GetStopsForRouteResponseData, GetStopsForRouteResponseDataEntry,
    GetStopsForRouteResponseDataEntryStopGrouping,
    GetStopsForRouteResponseDataEntryStopGroupingStopGroup,
    GetStopsForRouteResponseDataEntryStopGroupingStopGroupName,
    GetStopsForRouteResponseDataEntryStopGroupingType, GetStopsForRouteResponseDataReferences,
    GetStopsForRouteResponseDataReferencesRoute, GetStopsForRouteResponseDataReferencesStop,
};
use transit_aggregator::upstream::{Checked, Fetched};

fn service() -> TransitService {
    TransitService::new(TransitServiceConfig {
        host: "http://mta.test".to_string(),
        api_key: "key".to_string(),
        maps_service: MapsService::new(MapsServiceConfig {
            api_key: "gkey".to_string(),
            host: "http://maps.test".to_string(),
        }),
    })
}

fn nearby(stops: &[(&str, &[&str])]) -> GetStopsAtLocationResponse {
    GetStopsAtLocationResponse {
        data: GetStopsAtLocationResponseStops {
            stops: stops
                .iter()
                .map(|(id, routes)| StopAtLocation {
                    id: id.to_string(),
                    routes: routes
                        .iter()
                        .map(|route| StopAtLocationRoute { id: route.to_string() })
                        .collect(),
                })
                .collect(),
        },
    }
}

fn route_reply(route: (&str, &str), groups: &[(&str, &[&str])]) -> GetStopsForRouteResponse {
    let mut stops = Vec::new();
    for (_, ids) in groups {
        for id in ids.iter() {
            stops.push(GetStopsForRouteResponseDataReferencesStop {
                id: id.to_string(),
                name: format!("stop {}", id),
            });
        }
    }
    GetStopsForRouteResponse {
        data: GetStopsForRouteResponseData {
            entry: GetStopsForRouteResponseDataEntry {
                stopGroupings: vec![GetStopsForRouteResponseDataEntryStopGrouping {
                    kind: GetStopsForRouteResponseDataEntryStopGroupingType::Direction,
                    stopGroups: groups
                        .iter()
                        .map(|(id, ids)| GetStopsForRouteResponseDataEntryStopGroupingStopGroup {
                            id: id.to_string(),
                            name: GetStopsForRouteResponseDataEntryStopGroupingStopGroupName {
                                name: format!("to {}", id),
                            },
                            stopIds: ids.iter().map(|s| s.to_string()).collect(),
                        })
                        .collect(),
                }],
            },
            references: GetStopsForRouteResponseDataReferences {
                stops,
                routes: vec![GetStopsForRouteResponseDataReferencesRoute {
                    id: route.0.to_string(),
                    shortName: route.1.to_string(),
                }],
            },
        },
    }
}

fn result_group(id: &str, route: (&str, &str), stops: &[&str]) -> GetStopsForRouteResultGroup {
    GetStopsForRouteResultGroup {
        id: id.to_string(),
        name: format!("to {}", id),
        route_id: route.0.to_string(),
        route_name: route.1.to_string(),
        stops: stops
            .iter()
            .map(|s| GetStopsForRouteResultGroupStop {
                id: s.to_string(),
                name: format!("stop {}", s),
            })
            .collect(),
    }
}

fn stop_ids(group: &GetStopsForRouteResultGroup) -> Vec<String> {
    group.stops.iter().map(|s| s.id.clone()).collect()
}

fn object(members: Vec<(&str, JsonValue)>) -> JsonValue {
    JsonValue::Object(
        members
            .into_iter()
            .map(|(key, value)| JsonMember { key: key.to_string(), value })
            .collect(),
    )
}

fn place(lat: JsonValue, lng: JsonValue) -> JsonValue {
    object(vec![(
        "result",
        object(vec![("geometry", object(vec![("location", object(vec![("lat", lat), ("lng", lng)]))]))]),
    )])
}

fn text(value: &str) -> JsonValue {
    JsonValue::Text(value.to_string())
}

fn finished(step: (LocationLookup, LookupAction)) -> Result<GetGroupedStopsAtLocation, TransitClientError> {
    assert!(matches!(step.0, LocationLookup::Finished));
    match step.1 {
        LookupAction::Finish(outcome) => outcome,
        _ => panic!("the lookup has not finished"),
    }
}

fn internal(step: (LocationLookup, LookupAction)) -> String {
    match finished(step) {
        Err(TransitClientError::Internal(reason)) => reason,
        _ => panic!("expected an internal error"),
    }
}

#[test]
fn test_response() {
    let service = service();
    let payload = GetTransitStopsAtLocation { lat: "1".to_string(), lon: "1".to_string() };

    let stops_for_location_response = nearby(&[("1", &["1"])]);
    let stops_for_route_response = GetStopsForRouteResponse {
        data: GetStopsForRouteResponseData {
            entry: GetStopsForRouteResponseDataEntry { stopGroupings: vec![] },
            references: GetStopsForRouteResponseDataReferences { stops: vec![], routes: vec![] },
        },
    };

    let (state, action) = service
        .get_stops_at_location(LocationLookup::Idle, &LookupEvent::Begin(payload.location()));
    match &action {
        LookupAction::FetchNearbyStops(url) => assert_eq!(
            url,
            "http://mta.test/api/where/stops-for-location.json?lat=1&lon=1&latSpan=0.005&lonSpan=0.005&key=key"
        ),
        _ => panic!("expected the stops-for-location request"),
    }
    let (state, action) = service.get_stops_at_location(
        state,
        &LookupEvent::NearbyStops(Fetched::Decoded(stops_for_location_response)),
    );
    match &action {
        LookupAction::FetchRoutes(urls) => assert_eq!(
            urls,
            &vec![
                "http://mta.test/api/where/stops-for-route/1.json?key=key&includePolylines=false&version=2"
                    .to_string()
            ]
        ),
        _ => panic!("expected the stops-for-route requests"),
    }
    let step = service.get_stops_at_location(
        state,
        &LookupEvent::Routes(vec![Checked::Decoded(stops_for_route_response)]),
    );
    let found = finished(step);
    let body = get_transit_stops_at_location(&found).unwrap();
    assert_eq!(body.data.routes.len(), 0);
}

#[test]
fn a_route_is_reduced_to_the_stops_nearby() {
    let service = service();
    let begin = LookupEvent::Begin(GetStopsAtLocationInput::LatLong(
        "40.7".to_string(),
        "-73.9".to_string(),
    ));
    let (state, _) = service.get_stops_at_location(LocationLookup::Idle, &begin);
    let (state, _) = service.get_stops_at_location(
        state,
        &LookupEvent::NearbyStops(Fetched::Decoded(nearby(&[("s1", &["1"]), ("s2", &["1"])]))),
    );
    let step = service.get_stops_at_location(
        state,
        &LookupEvent::Routes(vec![Checked::Decoded(route_reply(
            ("1", "One"),
            &[("north", &["s1", "s2", "s9"])],
        ))]),
    );
    let found = finished(step).unwrap();
    assert_eq!(found.groups.len(), 1);
    assert_eq!(stop_ids(&found.groups[0]), vec!["s1", "s2"]);
    assert_eq!(found.groups[0].id, "north");
    assert_eq!(found.groups[0].name, "to north");
    assert_eq!(found.groups[0].route_id, "1");
    assert_eq!(found.groups[0].route_name, "One");
    assert_eq!(found.groups[0].stops[0].name, "stop s1");
}

#[test]
fn every_nearby_route_is_asked_for_once() {
    let service = service();
    let reply = nearby(&[("s1", &["B", "A"]), ("s2", &["A", "C", "B"]), ("s3", &[]), ("s1", &["A"])]);
    assert_eq!(collect_route_ids(&reply), vec!["B", "A", "C"]);
    assert_eq!(collect_stop_ids(&reply), vec!["s1", "s2", "s3", "s1"]);

    let begin = LookupEvent::Begin(GetStopsAtLocationInput::LatLong("1".to_string(), "2".to_string()));
    let (state, _) = service.get_stops_at_location(LocationLookup::Idle, &begin);
    let (state, action) =
        service.get_stops_at_location(state, &LookupEvent::NearbyStops(Fetched::Decoded(reply)));
    match &state {
        LocationLookup::FetchingRoutes { stop_ids, route_ids } => {
            assert_eq!(stop_ids, &vec!["s1", "s2", "s3", "s1"]);
            assert_eq!(route_ids, &vec!["B", "A", "C"]);
        }
        _ => panic!("expected to wait for the routes"),
    }
    match &action {
        LookupAction::FetchRoutes(urls) => {
            assert_eq!(urls.len(), 3);
            assert_eq!(urls[1], service.stops_for_route_url("A"));
        }
        _ => panic!("expected the stops-for-route requests"),
    }

    let step = service.get_stops_at_location(
        state,
        &LookupEvent::Routes(vec![
            Checked::Decoded(route_reply(("B", "Bee"), &[("b0", &["s2", "x"]), ("b1", &["y"])])),
            Checked::Decoded(route_reply(("A", "Ay"), &[("a0", &["s3", "s1"])])),
            Checked::Decoded(route_reply(("C", "Sea"), &[])),
        ]),
    );
    let found = finished(step).unwrap();
    let ids: Vec<String> = found.groups.iter().map(|g| g.id.clone()).collect();
    assert_eq!(ids, vec!["b0", "b1", "a0"]);
    assert_eq!(stop_ids(&found.groups[0]), vec!["s2"]);
    assert_eq!(stop_ids(&found.groups[1]).len(), 0);
    assert_eq!(stop_ids(&found.groups[2]), vec!["s3", "s1"]);
    assert_eq!(found.groups[2].route_name, "Ay");
}

#[test]
fn a_place_is_resolved_before_the_stops_are_asked_for() {
    let service = service();
    let begin = LookupEvent::Begin(GetStopsAtLocationInput::GooglePlaceId("ChIJ x".to_string()));
    let (state, action) = service.get_stops_at_location(LocationLookup::Idle, &begin);
    assert!(matches!(state, LocationLookup::ResolvingPlace));
    match &action {
        LookupAction::FetchPlaceDetails(url) => assert_eq!(
            url,
            "http://maps.test/maps/api/place/details/json?place_id=ChIJ x&fields=geometry&key=gkey"
        ),
        _ => panic!("expected the place-details request"),
    }
    let (state, action) = service.get_stops_at_location(
        state,
        &LookupEvent::PlaceDetails(Fetched::Decoded(place(text("40.5"), text("-73.5")))),
    );
    assert!(matches!(state, LocationLookup::FindingStops));
    match &action {
        LookupAction::FetchNearbyStops(url) => assert_eq!(
            url,
            "http://mta.test/api/where/stops-for-location.json?lat=40.5&lon=-73.5&latSpan=0.005&lonSpan=0.005&key=key"
        ),
        _ => panic!("expected the stops-for-location request"),
    }
}

#[test]
fn a_place_that_cannot_be_resolved_ends_the_lookup() {
    let service = service();
    let begin = LookupEvent::Begin(GetStopsAtLocationInput::GooglePlaceId("p".to_string()));

    let (state, _) = service.get_stops_at_location(LocationLookup::Idle, &begin);
    let step = service.get_stops_at_location(
        state,
        &LookupEvent::PlaceDetails(Fetched::Decoded(place(JsonValue::Number("40.5".to_string()), text("1")))),
    );
    assert_eq!(
        internal(step),
        "Failed to extract coordinates: Internal error: Failed to extract latitude from response"
    );

    let (state, _) = service.get_stops_at_location(LocationLookup::Idle, &begin);
    let step = service
        .get_stops_at_location(state, &LookupEvent::PlaceDetails(Fetched::Failed("down".to_string())));
    assert_eq!(
        internal(step),
        "Failed to extract coordinates: Internal error: Failed to send request: down"
    );
}

#[test]
fn a_failure_to_find_the_stops_ends_the_lookup() {
    let service = service();
    let begin = || LookupEvent::Begin(GetStopsAtLocationInput::LatLong("1".to_string(), "2".to_string()));

    let (state, _) = service.get_stops_at_location(LocationLookup::Idle, &begin());
    let step = service
        .get_stops_at_location(state, &LookupEvent::NearbyStops(Fetched::Failed("down".to_string())));
    assert_eq!(internal(step), "Failed to send stops for location API request: down");

    let (state, _) = service.get_stops_at_location(LocationLookup::Idle, &begin());
    let step = service.get_stops_at_location(
        state,
        &LookupEvent::NearbyStops(Fetched::Undecodable("EOF".to_string())),
    );
    assert_eq!(internal(step), "Failed to parse json for stops-for-location request: EOF");
}

#[test]
fn the_first_failing_route_ends_the_lookup_with_its_failure() {
    let service = service();
    let start = || {
        let begin =
            LookupEvent::Begin(GetStopsAtLocationInput::LatLong("1".to_string(), "2".to_string()));
        let (state, _) = service.get_stops_at_location(LocationLookup::Idle, &begin);
        let (state, _) = service.get_stops_at_location(
            state,
            &LookupEvent::NearbyStops(Fetched::Decoded(nearby(&[("s1", &["A", "B", "C"])]))),
        );
        state
    };

    let step = service.get_stops_at_location(
        start(),
        &LookupEvent::Routes(vec![
            Checked::Decoded(route_reply(("A", "Ay"), &[("a0", &["s1"])])),
            Checked::Rejected(404, "gone".to_string()),
            Checked::Failed("down".to_string()),
        ]),
    );
    assert!(matches!(finished(step), Err(TransitClientError::ResourceNotFound)));

    let step = service.get_stops_at_location(
        start(),
        &LookupEvent::Routes(vec![
            Checked::Undecodable("bad".to_string()),
            Checked::Rejected(404, "gone".to_string()),
            Checked::Decoded(route_reply(("C", "Sea"), &[])),
        ]),
    );
    assert_eq!(internal(step), "bad");

    let step = service.get_stops_at_location(
        start(),
        &LookupEvent::Routes(vec![Checked::Decoded(route_reply(("A", "Ay"), &[]))]),
    );
    assert_eq!(internal(step), "The replies do not answer the requests");
}

#[test]
fn an_event_that_answers_nothing_ends_the_lookup() {
    let service = service();
    let begin = || LookupEvent::Begin(GetStopsAtLocationInput::LatLong("1".to_string(), "2".to_string()));
    let reason = "The event does not answer the request";

    let step = service.get_stops_at_location(LocationLookup::Idle, &LookupEvent::Routes(vec![]));
    assert_eq!(internal(step), reason);
    let step = service.get_stops_at_location(LocationLookup::ResolvingPlace, &begin());
    assert_eq!(internal(step), reason);
    let step = service.get_stops_at_location(LocationLookup::FindingStops, &begin());
    assert_eq!(internal(step), reason);
    let step = service.get_stops_at_location(
        LocationLookup::FetchingRoutes { stop_ids: vec![], route_ids: vec![] },
        &begin(),
    );
    assert_eq!(internal(step), reason);
    let step = service.get_stops_at_location(LocationLookup::Finished, &begin());
    assert_eq!(internal(step), reason);
}

#[test]
fn nearby_groups_keep_their_order_and_lose_far_stops() {
    let results = vec![
        GetStopsForRouteResult {
            groups: vec![
                result_group("g0", ("A", "Ay"), &["s1", "s2", "s3"]),
                result_group("g1", ("A", "Ay"), &["s4"]),
            ],
        },
        GetStopsForRouteResult { groups: vec![] },
        GetStopsForRouteResult { groups: vec![result_group("g2", ("B", "Bee"), &["s3", "s3", "s1"])] },
    ];
    let near = vec!["s3".to_string(), "s1".to_string()];
    let grouped = group_nearby_stops(&results, &near);
    let ids: Vec<String> = grouped.groups.iter().map(|g| g.id.clone()).collect();
    assert_eq!(ids, vec!["g0", "g1", "g2"]);
    assert_eq!(stop_ids(&grouped.groups[0]), vec!["s1", "s3"]);
    assert_eq!(stop_ids(&grouped.groups[1]).len(), 0);
    assert_eq!(stop_ids(&grouped.groups[2]), vec!["s3", "s3", "s1"]);

    let none = keep_nearby_stops(&results[0].groups[0], &Vec::new());
    assert_eq!(none.stops.len(), 0);
    assert_eq!(none.id, "g0");
    assert_eq!(none.route_id, "A");
}

#[test]
fn the_location_endpoint_shows_each_route_once() {
    let found = Ok(GetGroupedStopsAtLocation {
        groups: vec![
            result_group("north", ("A", "Ay"), &["s1"]),
            result_group("east", ("B", "Bee"), &["s2", "s3"]),
            result_group("south", ("A", "Other name"), &[]),
            result_group("west", ("B", "Bee"), &["s4"]),
            result_group("up", ("C", "Ay"), &["s5"]),
        ],
    });
    let body = get_transit_stops_at_location(&found).unwrap();
    let routes: Vec<(String, String, Vec<String>)> = body
        .data
        .routes
        .iter()
        .map(|r| (r.id.clone(), r.name.clone(), r.groupings.iter().map(|g| g.name.clone()).collect()))
        .collect();
    assert_eq!(
        routes,
        vec![
            ("A".to_string(), "Ay".to_string(), vec!["to north".to_string(), "to south".to_string()]),
            ("B".to_string(), "Bee".to_string(), vec!["to east".to_string(), "to west".to_string()]),
            ("C".to_string(), "Ay".to_string(), vec!["to up".to_string()]),
        ]
    );
    let stops: Vec<String> =
        body.data.routes[1].groupings[0].stops.iter().map(|s| s.id.clone()).collect();
    assert_eq!(stops, vec!["s2", "s3"]);
    assert_eq!(body.data.routes[1].groupings[0].stops[1].name, "stop s3");
}

#[test]
fn a_route_without_groups_is_shown_bare() {
    let groups = vec![result_group("north", ("A", "Ay"), &["s1"])];
    let route = show_route(&groups, &"Z".to_string());
    assert_eq!(route.id, "Z");
    assert_eq!(route.name, "");
    assert_eq!(route.groupings.len(), 0);
}

#[test]
fn the_location_endpoint_hides_the_cause_of_a_failure() {
    for found in [
        Err(TransitClientError::Internal("upstream said no".to_string())),
        Err(TransitClientError::ResourceNotFound),
    ] {
        let error = get_transit_stops_at_location(&found).err().unwrap();
        assert_eq!(error.code, 500);
        assert_eq!(error.message, "Internal Server Error");
    }
}
