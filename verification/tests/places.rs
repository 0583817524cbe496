use transit_aggregator::app::{AppConfig, AppState};
use transit_aggregator::app_error::AppError;
use transit_aggregator::auth::auth_middleware;
use transit_aggregator::errors::{MapsServiceError, TransitClientError};
use transit_aggregator::json::{JsonMember, JsonValue};
use transit_aggregator::maps_service::{
    read_coordinate, AutocompleteSearchOutput, AutocompleteSearchOutputPrediction, MapsService,
    MapsServiceConfig,
};
use transit_aggregator::routes::get_location_search_autocomplete::{
    get_location_search_autocomplete, GetLocationSearchAutocompletePayload,
};
use transit_aggregator::types::google_autocomplete_response::{
    GoogleAutocompleteResponse, GoogleAutocompleteResponsePrediction,
    GoogleAutocompleteResponsePredictionStructuredFormatting,
};
use transit_aggregator::upstream::Fetched;

fn service() -> MapsService {
    MapsService::new(MapsServiceConfig {
        api_key: "key".to_string(),
        host: "http://maps.test".to_string(),
    })
}

fn object(members: Vec<(&str, JsonValue)>) -> JsonValue {
    JsonValue::Object(
        members
            .into_iter()
            .map(|(key, value)| JsonMember { key: key.to_string(), value })
            .collect(),
    )
}

fn text(value: &str) -> JsonValue {
    JsonValue::Text(value.to_string())
}

fn place(location: JsonValue) -> JsonValue {
    object(vec![
        ("status", text("OK")),
        ("result", object(vec![("geometry", object(vec![("location", location)]))])),
    ])
}

fn prediction(place_id: &str, main: &str, secondary: &str) -> GoogleAutocompleteResponsePrediction {
    GoogleAutocompleteResponsePrediction {
        place_id: place_id.to_string(),
        structed_formatting: GoogleAutocompleteResponsePredictionStructuredFormatting {
            main_text: main.to_string(),
            secondary_text: secondary.to_string(),
        },
    }
}

fn reason(error: MapsServiceError) -> String {
    match error {
        MapsServiceError::Internal(reason) => reason,
    }
}

#[test]
fn test_get_location_search_autocomplete() {
    let service = service();
    let payload = GetLocationSearchAutocompletePayload {
        search: "test".to_string(),
        lat: "40.7128".to_string(),
        lon: "74.0060".to_string(),
    };

    let mock_google_response =
        GoogleAutocompleteResponse { predictions: vec![prediction("123", "Test Main", "Test Sec")] };

    assert_eq!(
        service.autocomplete_url(&payload.search_input()),
        "http://maps.test/maps/api/place/autocomplete/json?input=test&location=40.7128,74.0060&radius=500&key=key"
    );

    let found = service.get_autocomplete(&Fetched::Decoded(mock_google_response));
    let body = get_location_search_autocomplete(&found).unwrap();

    assert_eq!(body.data.predictions.len(), 1);
    assert_eq!(body.data.predictions[0].main_text, "Test Main");
    assert_eq!(body.data.predictions[0].secondary_text, "Test Sec");
    assert_eq!(body.data.predictions[0].place_id, "123");
}

#[test]
fn suggestions_keep_the_upstream_order() {
    let reply = GoogleAutocompleteResponse {
        predictions: vec![
            prediction("place-b", "Second St", "Brooklyn"),
            prediction("place-a", "First Ave", "Manhattan"),
            prediction("place-b", "Second St", "Brooklyn"),
        ],
    };
    let output = service().get_autocomplete(&Fetched::Decoded(reply)).unwrap();
    let shown: Vec<(String, String, String)> = output
        .predictions
        .iter()
        .map(|p| (p.place_id.clone(), p.main_text.clone(), p.secondary_text.clone()))
        .collect();
    assert_eq!(
        shown,
        vec![
            ("place-b".to_string(), "Second St".to_string(), "Brooklyn".to_string()),
            ("place-a".to_string(), "First Ave".to_string(), "Manhattan".to_string()),
            ("place-b".to_string(), "Second St".to_string(), "Brooklyn".to_string()),
        ]
    );
    let none = service()
        .get_autocomplete(&Fetched::Decoded(GoogleAutocompleteResponse { predictions: vec![] }))
        .unwrap();
    assert_eq!(none.predictions.len(), 0);
}

#[test]
fn the_text_typed_is_percent_encoded_in_the_address() {
    let payload = GetLocationSearchAutocompletePayload {
        search: "5th Ave & W 34th/é".to_string(),
        lat: "40.7".to_string(),
        lon: "-73.9".to_string(),
    };
    assert_eq!(
        service().autocomplete_url(&payload.search_input()),
        "http://maps.test/maps/api/place/autocomplete/json?input=5th%20Ave%20%26%20W%2034th%2F%C3%A9&location=40.7,-73.9&radius=500&key=key"
    );
}

#[test]
fn failures_of_the_places_service_say_which_step_failed() {
    let service = service();
    let unsent = service.get_autocomplete(&Fetched::Failed("refused".to_string())).err().unwrap();
    assert_eq!(unsent.to_string(), "Internal error: Failed to send request: refused");
    let unread =
        service.get_autocomplete(&Fetched::Undecodable("EOF".to_string())).err().unwrap();
    assert_eq!(unread.to_string(), "Internal error: Failed to get response body: EOF");

    let unsent = service
        .extract_coordinates_from_place_id(&Fetched::Failed("refused".to_string()))
        .err()
        .unwrap();
    assert_eq!(reason(unsent), "Failed to send request: refused");
    let unread = service
        .extract_coordinates_from_place_id(&Fetched::Undecodable("EOF".to_string()))
        .err()
        .unwrap();
    assert_eq!(reason(unread), "Failed to get response body: EOF");
}

#[test]
fn coordinates_are_read_from_the_location_of_the_place() {
    let service = service();
    assert_eq!(
        service.place_details_url("ChIJ123"),
        "http://maps.test/maps/api/place/details/json?place_id=ChIJ123&fields=geometry&key=key"
    );
    let document = place(object(vec![
        ("lng", text("-73.98")),
        ("alt", JsonValue::Null),
        ("lat", text("40.75")),
    ]));
    let found = service.extract_coordinates_from_place_id(&Fetched::Decoded(document)).unwrap();
    assert_eq!(found, ("40.75".to_string(), "-73.98".to_string()));
}

#[test]
fn a_coordinate_that_is_missing_or_no_text_is_an_error() {
    let service = service();
    let latitude = "Failed to extract latitude from response";
    let longitude = "Failed to extract longitude from response";
    let cases = vec![
        (place(object(vec![("lng", text("1"))])), latitude),
        (place(object(vec![("lat", text("1"))])), longitude),
        (place(object(vec![("lat", JsonValue::Number("1.5".to_string())), ("lng", text("1"))])), latitude),
        (place(object(vec![("lat", text("1")), ("lng", JsonValue::Bool(true))])), longitude),
        (place(object(vec![])), latitude),
        (place(text("here")), latitude),
        (place(JsonValue::Array(vec![text("1"), text("2")])), latitude),
        (object(vec![("result", object(vec![]))]), latitude),
        (object(vec![]), latitude),
        (JsonValue::Null, latitude),
        (object(vec![("Result", place(object(vec![("lat", text("1")), ("lng", text("2"))])))]), latitude),
    ];
    for (document, expected) in cases {
        let error = service.extract_coordinates_from_place_id(&Fetched::Decoded(document)).err().unwrap();
        assert_eq!(reason(error), expected);
    }
}

#[test]
fn of_two_members_with_one_key_the_first_is_read() {
    let document = place(object(vec![("lat", text("1")), ("lat", text("2")), ("lng", text("3"))]));
    assert_eq!(read_coordinate(&document, "lat"), Some("1".to_string()));
    assert_eq!(read_coordinate(&document, "lng"), Some("3".to_string()));
    assert_eq!(read_coordinate(&document, "alt"), None);
    assert!(document.get("result").is_some());
    assert!(document.get("geometry").is_none());
    assert!(text("x").get("result").is_none());
    assert_eq!(text("x").as_str(), Some(&"x".to_string()));
    assert_eq!(JsonValue::Number("1".to_string()).as_str(), None);
}

#[test]
fn the_autocomplete_endpoint_hides_the_cause_of_a_failure() {
    let found = Err(MapsServiceError::Internal("quota exceeded for key".to_string()));
    let error = get_location_search_autocomplete(&found).err().unwrap();
    assert_eq!(error.code, 500);
    assert_eq!(error.message, "Failed to fetch location search autocomplete");

    let found = Ok(AutocompleteSearchOutput {
        predictions: vec![AutocompleteSearchOutputPrediction {
            main_text: "m".to_string(),
            secondary_text: "s".to_string(),
            place_id: "place".to_string(),
        }],
    });
    let body = get_location_search_autocomplete(&found).unwrap();
    assert_eq!(body.data.predictions.len(), 1);
    assert_eq!(body.data.predictions[0].place_id, "place");
}

#[test]
fn errors_are_rendered_with_their_kind() {
    assert_eq!(
        TransitClientError::Internal("boom".to_string()).to_string(),
        "Internal error: boom"
    );
    assert_eq!(TransitClientError::ResourceNotFound.to_string(), "Resource not found");
    assert_eq!(MapsServiceError::Internal("boom".to_string()).to_string(), "Internal error: boom");
    assert_eq!(MapsServiceError::Internal(String::new()).to_string(), "Internal error: ");
    let error = AppError::new(418, "teapot");
    assert_eq!(error.code, 418);
    assert_eq!(error.message, "teapot");
    let error = AppError::internal();
    assert_eq!(error.code, 500);
    assert_eq!(error.message, "Internal Server Error");
}

#[test]
fn a_request_passes_with_the_configured_key_or_without_any() {
    let key = Some("secret".to_string());
    assert!(auth_middleware(&None, &None).is_ok());
    assert!(auth_middleware(&None, &Some("anything".to_string())).is_ok());
    assert!(auth_middleware(&key, &Some("secret".to_string())).is_ok());
    for header in [None, Some("Secret".to_string()), Some("secret ".to_string()), Some(String::new())] {
        let error = auth_middleware(&key, &header).err().unwrap();
        assert_eq!(error.code, 401);
        assert_eq!(error.message, "Unauthorized");
    }
    assert!(auth_middleware(&Some(String::new()), &Some(String::new())).is_ok());
}

#[test]
fn the_state_is_built_from_the_configuration() {
    let state = AppState::new(&AppConfig {
        mta_host: "http://mta.test".to_string(),
        mta_key: "mkey".to_string(),
        google_maps_host: "http://maps.test".to_string(),
        google_maps_key: "gkey".to_string(),
        auth_key: Some("secret".to_string()),
    });
    assert_eq!(state.auth_key, Some("secret".to_string()));
    assert_eq!(
        state.transit_service.routes_url(),
        "http://mta.test/api/where/routes-for-agency/MTA%20NYCT.json?key=mkey"
    );
    assert_eq!(
        state.maps_service.place_details_url("p"),
        "http://maps.test/maps/api/place/details/json?place_id=p&fields=geometry&key=gkey"
    );
    assert_eq!(
        state.transit_service.maps_service().place_details_url("p"),
        state.maps_service.place_details_url("p")
    );
}
