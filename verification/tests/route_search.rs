use transit_aggregator::errors::TransitClientError;
use transit_aggregator::maps_service::{MapsService, MapsServiceConfig};
use transit_aggregator::records::{FindTransitRoutesResult, FindTransitRoutesResultRoute};
use transit_aggregator::routes::get_transit_routes::{get_transit_routes, GetTransitRoutesPayload};
use transit_aggregator::search::search_routes;
use transit_aggregator::text::{chars_of, contains_text, split_commas};
use transit_aggregator::transit_service::{TransitService, TransitServiceConfig};
use transit_aggregator::types::mta_get_routes_response::{
    GetRoutesResponse, GetRoutesResponseData, GetRoutesResponseRoute,
};
use transit_aggregator::upstream::Checked;

fn service() -> TransitService {
    TransitService::new(TransitServiceConfig {
        host: "http://mta.test".to_string(),
        api_key: "key".to_string(),
        maps_service: MapsService::new(MapsServiceConfig {
            api_key: "key".to_string(),
            host: "http://maps.test".to_string(),
        }),
    })
}

fn routes(list: &[(&str, &str)]) -> GetRoutesResponse {
    GetRoutesResponse {
        data: GetRoutesResponseData {
            list: list
                .iter()
                .map(|(id, name)| GetRoutesResponseRoute {
                    id: id.to_string(),
                    shortName: name.to_string(),
                })
                .collect(),
        },
    }
}

fn found_ids(found: &FindTransitRoutesResult) -> Vec<String> {
    found.routes.iter().map(|r| r.id.clone()).collect()
}

#[test]
fn get_transit_routes_get_response() {
    let service = service();
    let payload = GetTransitRoutesPayload { search: "A".to_string() };

    let mock_response = routes(&[("1", "A"), ("2", "B")]);

    assert_eq!(
        service.routes_url(),
        "http://mta.test/api/where/routes-for-agency/MTA%20NYCT.json?key=key"
    );

    let found = service.get_routes(&payload.search, &Checked::Decoded(mock_response));
    let body = get_transit_routes(&found).unwrap();

    assert_eq!(body.data.routes.len(), 1);
    assert_eq!(body.data.routes[0].id, "1");
    assert_eq!(body.data.routes[0].name, "A");
}

#[test]
fn the_search_ignores_letter_case_and_matches_parts() {
    let reply = routes(&[("1", "A"), ("2", "B1")]);
    assert_eq!(found_ids(&search_routes(&reply, "a")), vec!["1"]);

    let reply = routes(&[("1", "Bx12"), ("2", "M15-SBS"), ("3", "bX12+"), ("4", "X1"), ("5", "")]);
    assert_eq!(found_ids(&search_routes(&reply, "BX12")), vec!["1", "3"]);
    assert_eq!(found_ids(&search_routes(&reply, "x1")), vec!["1", "3", "4"]);
    assert_eq!(found_ids(&search_routes(&reply, "sbs")), vec!["2"]);
    assert_eq!(found_ids(&search_routes(&reply, "")), vec!["1", "2", "3", "4", "5"]);
    assert_eq!(found_ids(&search_routes(&reply, "Q")).len(), 0);
    let found = search_routes(&reply, "m15");
    assert_eq!(found.routes[0].name, "M15-SBS");
}

#[test]
fn the_search_lowers_letters_beyond_ascii() {
    let reply = routes(&[("1", "ÉCOLE"), ("2", "école"), ("3", "ecole")]);
    assert_eq!(found_ids(&search_routes(&reply, "École")), vec!["1", "2"]);
}

#[test]
fn every_failure_of_the_routes_call_is_internal() {
    let service = service();
    for reply in [
        Checked::Failed("boom".to_string()),
        Checked::Rejected(404, "boom".to_string()),
        Checked::Undecodable("boom".to_string()),
    ] {
        let found = service.get_routes("A", &reply);
        match &found {
            Err(TransitClientError::Internal(text)) => assert_eq!(text, "boom"),
            _ => panic!("expected an internal error"),
        }
        let error = get_transit_routes(&found).err().unwrap();
        assert_eq!(error.code, 500);
        assert_eq!(error.message, "Internal Server Error");
    }
}

#[test]
fn the_routes_endpoint_shows_what_was_found() {
    let found = Ok(FindTransitRoutesResult {
        routes: vec![
            FindTransitRoutesResultRoute { id: "9".to_string(), name: "Nine".to_string() },
            FindTransitRoutesResultRoute { id: "3".to_string(), name: "Three".to_string() },
        ],
    });
    let body = get_transit_routes(&found).unwrap();
    let shown: Vec<(String, String)> =
        body.data.routes.iter().map(|r| (r.id.clone(), r.name.clone())).collect();
    assert_eq!(
        shown,
        vec![("9".to_string(), "Nine".to_string()), ("3".to_string(), "Three".to_string())]
    );
}

#[test]
fn a_part_of_a_text_is_found_wherever_it_stands() {
    assert!(contains_text("hello", "hello"));
    assert!(contains_text("hello", "he"));
    assert!(contains_text("hello", "llo"));
    assert!(contains_text("hello", "l"));
    assert!(contains_text("hello", ""));
    assert!(contains_text("", ""));
    assert!(!contains_text("", "a"));
    assert!(!contains_text("hello", "hello!"));
    assert!(!contains_text("hello", "lol"));
    assert!(!contains_text("aab", "abb"));
    assert!(contains_text("aaab", "aab"));
    assert!(contains_text("naïve café", "ve ca"));
    assert!(!contains_text("naïve", "i"));
}

#[test]
fn a_text_is_cut_at_every_comma() {
    assert_eq!(split_commas("a,b"), vec!["a", "b"]);
    assert_eq!(split_commas("abc"), vec!["abc"]);
    assert_eq!(split_commas(""), vec![""]);
    assert_eq!(split_commas(","), vec!["", ""]);
    assert_eq!(split_commas(",a,,b,"), vec!["", "a", "", "b", ""]);
    assert_eq!(split_commas("é,ü x"), vec!["é", "ü x"]);
}

#[test]
fn the_characters_of_a_text_are_its_characters() {
    assert_eq!(chars_of("aé,"), vec!['a', 'é', ',']);
    assert_eq!(chars_of("").len(), 0);
}
