//! The places service: suggestions for a text typed so far, and the
//! coordinates of a place.

use vstd::prelude::*;
use vstd::string::*;
use crate::errors::{MapsServiceError, MapsServiceErrorView};
use crate::json::{member_of, text_of, JsonValue};
use crate::model::{views, Prediction};
use crate::percent::{percent_encode, percent_encoded};
use crate::types::google_autocomplete_response::GoogleAutocompleteResponse;
use crate::upstream::{lent_view, outcome_view, Fetched};

verus! {

/// Where the places service is and the key to present to it.
pub struct MapsServiceConfig {
    pub api_key: String,
    pub host: String,
}

/// The places service.
pub struct MapsService {
    config: MapsServiceConfig,
}

/// What to complete: the text typed so far and the point to prefer places near.
pub struct AutocompleteSearchInput {
    pub input: String,
    pub lat: String,
    pub lon: String,
}

/// One suggestion.
pub struct AutocompleteSearchOutputPrediction {
    pub main_text: String,
    pub secondary_text: String,
    pub place_id: String,
}

impl View for AutocompleteSearchOutputPrediction {
    type V = Prediction;

    open spec fn view(&self) -> Prediction {
        Prediction {
            main_text: self.main_text@,
            secondary_text: self.secondary_text@,
            place_id: self.place_id@,
        }
    }
}

/// The suggestions, in upstream order.
pub struct AutocompleteSearchOutput {
    pub predictions: Vec<AutocompleteSearchOutputPrediction>,
}

impl View for AutocompleteSearchOutput {
    type V = Seq<Prediction>;

    open spec fn view(&self) -> Seq<Prediction> {
        views(self.predictions@)
    }
}

/// The address of the autocomplete call.
pub open spec fn autocomplete_address(
    host: Seq<char>,
    api_key: Seq<char>,
    input: Seq<char>,
    lat: Seq<char>,
    lon: Seq<char>,
) -> Seq<char> {
    host + "/maps/api/place/autocomplete/json?input="@ + percent_encoded(input) + "&location="@
        + lat + ","@ + lon + "&radius=500&key="@ + api_key
}

/// The address of the place-details call.
pub open spec fn place_details_address(
    host: Seq<char>,
    api_key: Seq<char>,
    place_id: Seq<char>,
) -> Seq<char> {
    host + "/maps/api/place/details/json?place_id="@ + place_id + "&fields=geometry&key="@
        + api_key
}

/// The location object of a place-details document.
pub open spec fn place_location(document: JsonValue) -> Option<JsonValue> {
    member_of(member_of(document.member("result"@), "geometry"@), "location"@)
}

/// The latitude of a place-details document, where it is there as text.
pub open spec fn place_latitude(document: JsonValue) -> Option<Seq<char>> {
    text_of(member_of(place_location(document), "lat"@))
}

/// The longitude of a place-details document, where it is there as text.
pub open spec fn place_longitude(document: JsonValue) -> Option<Seq<char>> {
    text_of(member_of(place_location(document), "lng"@))
}

/// What a place-details document yields: latitude and longitude, or the
/// error for the first of the two that is missing or is no text.
pub open spec fn place_coordinates(document: JsonValue) -> Result<
    (Seq<char>, Seq<char>),
    MapsServiceErrorView,
> {
    match place_latitude(document) {
        None => Err(MapsServiceErrorView::Internal("Failed to extract latitude from response"@)),
        Some(lat) => match place_longitude(document) {
            None => Err(
                MapsServiceErrorView::Internal("Failed to extract longitude from response"@),
            ),
            Some(lon) => Ok((lat, lon)),
        },
    }
}

/// The text before the reason where a request could not be sent.
pub open spec fn unsent_text() -> Seq<char> {
    "Failed to send request: "@
}

/// The text before the reason where a body could not be decoded.
pub open spec fn unread_text() -> Seq<char> {
    "Failed to get response body: "@
}

/// The body of a reply, or the error that the reply amounts to.
pub open spec fn fetched<T>(reply: Fetched<T>) -> Result<T, MapsServiceErrorView> {
    match reply.received(unsent_text(), unread_text()) {
        Ok(body) => Ok(body),
        Err(text) => Err(MapsServiceErrorView::Internal(text)),
    }
}

/// What a reply to the autocomplete call yields: its suggestions, in
/// upstream order and untouched.
pub open spec fn autocomplete_outcome(reply: Fetched<GoogleAutocompleteResponse>) -> Result<
    Seq<Prediction>,
    MapsServiceErrorView,
> {
    match fetched(reply) {
        Ok(body) => Ok(body@),
        Err(error) => Err(error),
    }
}

/// What a reply to the place-details call yields.
pub open spec fn coordinates_outcome(reply: Fetched<JsonValue>) -> Result<
    (Seq<char>, Seq<char>),
    MapsServiceErrorView,
> {
    match fetched(reply) {
        Ok(document) => place_coordinates(document),
        Err(error) => Err(error),
    }
}

/// The body of a reply, or the error that the reply amounts to.
pub fn fetched_body<T>(reply: &Fetched<T>) -> (outcome: Result<&T, MapsServiceError>)
    ensures
        lent_view(outcome) == fetched(*reply),
{
    match reply.body("Failed to send request: ", "Failed to get response body: ") {
        Ok(body) => Ok(body),
        Err(text) => Err(MapsServiceError::Internal(text)),
    }
}

/// Reads one coordinate out of the location object of a place-details
/// document.
pub fn read_coordinate(document: &JsonValue, axis: &str) -> (text: Option<String>)
    ensures
        match text {
            Some(t) => text_of(member_of(place_location(*document), axis@)) == Some(t@),
            None => text_of(member_of(place_location(*document), axis@)) is None,
        },
{
    let result = match document.get("result") {
        Some(value) => value,
        None => { return None; },
    };
    let geometry = match result.get("geometry") {
        Some(value) => value,
        None => { return None; },
    };
    let location = match geometry.get("location") {
        Some(value) => value,
        None => { return None; },
    };
    let coordinate = match location.get(axis) {
        Some(value) => value,
        None => { return None; },
    };
    match coordinate.as_str() {
        Some(text) => Some(text.clone()),
        None => None,
    }
}

/// Reads latitude and longitude out of a place-details document.
pub fn read_coordinates(document: &JsonValue) -> (outcome: Result<(String, String), MapsServiceError>)
    ensures
        outcome_view(outcome) == place_coordinates(*document),
{
    let lat = match read_coordinate(document, "lat") {
        Some(text) => text,
        None => {
            return Err(
                MapsServiceError::Internal(
                    String::from_str("Failed to extract latitude from response"),
                ),
            );
        },
    };
    let lon = match read_coordinate(document, "lng") {
        Some(text) => text,
        None => {
            return Err(
                MapsServiceError::Internal(
                    String::from_str("Failed to extract longitude from response"),
                ),
            );
        },
    };
    Ok((lat, lon))
}

impl MapsService {
    /// The host that the service calls.
    pub closed spec fn host(&self) -> Seq<char> {
        self.config.host@
    }

    /// The key that the service presents.
    pub closed spec fn api_key(&self) -> Seq<char> {
        self.config.api_key@
    }

    /// A service for the given host and key.
    pub fn new(config: MapsServiceConfig) -> (service: Self)
        ensures
            service.host() == config.host@,
            service.api_key() == config.api_key@,
    {
        Self { config }
    }

    /// A second handle on the same service.
    pub fn duplicate(&self) -> (copy: Self)
        ensures
            copy.host() == self.host(),
            copy.api_key() == self.api_key(),
    {
        Self {
            config: MapsServiceConfig {
                api_key: self.config.api_key.clone(),
                host: self.config.host.clone(),
            },
        }
    }

    /// The address to call for suggestions.
    pub fn autocomplete_url(&self, input: &AutocompleteSearchInput) -> (url: String)
        ensures
            url@ == autocomplete_address(
                self.host(),
                self.api_key(),
                input.input@,
                input.lat@,
                input.lon@,
            ),
    {
        let encoded = percent_encode(input.input.as_str());
        let mut url = self.config.host.clone();
        url.append("/maps/api/place/autocomplete/json?input=");
        url.append(encoded.as_str());
        url.append("&location=");
        url.append(input.lat.as_str());
        url.append(",");
        url.append(input.lon.as_str());
        url.append("&radius=500&key=");
        url.append(self.config.api_key.as_str());
        url
    }

    /// The suggestions that the reply carries, in upstream order and
    /// untouched, or the error that the reply amounts to.
    pub fn get_autocomplete(&self, reply: &Fetched<GoogleAutocompleteResponse>) -> (outcome: Result<
        AutocompleteSearchOutput,
        MapsServiceError,
    >)
        ensures
            outcome_view(outcome) == autocomplete_outcome(*reply),
    {
        let body = match fetched_body(reply) {
            Ok(body) => body,
            Err(error) => { return Err(error); },
        };
        let mut predictions: Vec<AutocompleteSearchOutputPrediction> = Vec::new();
        let mut i: usize = 0;
        proof {
            assert(views(predictions@) =~= body@.take(0));
        }
        while i < body.predictions.len()
            invariant
                i <= body.predictions.len(),
                views(predictions@) == body@.take(i as int),
            decreases body.predictions.len() - i,
        {
            let ghost before = views(predictions@);
            let upstream = &body.predictions[i];
            let prediction = AutocompleteSearchOutputPrediction {
                main_text: upstream.structed_formatting.main_text.clone(),
                secondary_text: upstream.structed_formatting.secondary_text.clone(),
                place_id: upstream.place_id.clone(),
            };
            predictions.push(prediction);
            proof {
                assert(views(predictions@) =~= before.push(prediction@));
                assert(body@.take(i + 1) =~= body@.take(i as int).push(body@[i as int]));
            }
            i += 1;
        }
        proof {
            assert(body@.take(i as int) =~= body@);
        }
        Ok(AutocompleteSearchOutput { predictions })
    }

    /// The address to call for the details of a place.
    pub fn place_details_url(&self, place_id: &str) -> (url: String)
        ensures
            url@ == place_details_address(self.host(), self.api_key(), place_id@),
    {
        let mut url = self.config.host.clone();
        url.append("/maps/api/place/details/json?place_id=");
        url.append(place_id);
        url.append("&fields=geometry&key=");
        url.append(self.config.api_key.as_str());
        url
    }

    /// Latitude and longitude of the place that the reply describes, or the
    /// error that the reply amounts to.
    pub fn extract_coordinates_from_place_id(&self, reply: &Fetched<JsonValue>) -> (outcome: Result<
        (String, String),
        MapsServiceError,
    >)
        ensures
            outcome_view(outcome) == coordinates_outcome(*reply),
    {
        let document = match fetched_body(reply) {
            Ok(document) => document,
            Err(error) => { return Err(error); },
        };
        read_coordinates(document)
    }
}

} // verus!
