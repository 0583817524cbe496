//! Suggestions of places for a text typed so far.

use vstd::prelude::*;
use crate::app_error::{AppError, AppErrorView, INTERNAL_SERVER_ERROR};
use crate::errors::MapsServiceError;
use crate::maps_service::{AutocompleteSearchInput, AutocompleteSearchOutput};
use crate::model::{views, Prediction};
use crate::upstream::outcome_view;

verus! {

/// The request parameters: the text typed so far and the point to prefer
/// places near.
pub struct GetLocationSearchAutocompletePayload {
    pub search: String,
    pub lat: String,
    pub lon: String,
}

/// One suggestion as the reply shows it.
pub struct GetLocationSearchAutocompleteResponseDataPrediction {
    pub main_text: String,
    pub secondary_text: String,
    pub place_id: String,
}

impl View for GetLocationSearchAutocompleteResponseDataPrediction {
    type V = Prediction;

    open spec fn view(&self) -> Prediction {
        Prediction {
            main_text: self.main_text@,
            secondary_text: self.secondary_text@,
            place_id: self.place_id@,
        }
    }
}

/// The suggestions of a reply.
pub struct GetLocationSearchAutocompleteResponseData {
    pub predictions: Vec<GetLocationSearchAutocompleteResponseDataPrediction>,
}

impl View for GetLocationSearchAutocompleteResponseData {
    type V = Seq<Prediction>;

    open spec fn view(&self) -> Seq<Prediction> {
        views(self.predictions@)
    }
}

/// The reply: the suggestions under `data`.
pub struct GetLocationSearchAutocompleteResponse {
    pub data: GetLocationSearchAutocompleteResponseData,
}

impl View for GetLocationSearchAutocompleteResponse {
    type V = Seq<Prediction>;

    open spec fn view(&self) -> Seq<Prediction> {
        self.data@
    }
}

/// The error for suggestions that could not be fetched.
pub open spec fn autocomplete_failed() -> AppErrorView {
    AppErrorView {
        code: INTERNAL_SERVER_ERROR,
        message: "Failed to fetch location search autocomplete"@,
    }
}

/// What the endpoint answers: the suggestions found, in their order and
/// untouched; an internal server error where they could not be fetched.
pub open spec fn autocomplete_reply(found: Result<AutocompleteSearchOutput, MapsServiceError>) -> Result<
    Seq<Prediction>,
    AppErrorView,
> {
    match found {
        Ok(output) => Ok(output@),
        Err(_) => Err(autocomplete_failed()),
    }
}

impl GetLocationSearchAutocompletePayload {
    /// What to ask the places service.
    pub fn search_input(&self) -> (input: AutocompleteSearchInput)
        ensures
            input.input@ == self.search@,
            input.lat@ == self.lat@,
            input.lon@ == self.lon@,
    {
        AutocompleteSearchInput {
            input: self.search.clone(),
            lat: self.lat.clone(),
            lon: self.lon.clone(),
        }
    }
}

/// Builds the reply of the endpoint from what the places service found.
pub fn get_location_search_autocomplete(
    found: &Result<AutocompleteSearchOutput, MapsServiceError>,
) -> (reply: Result<GetLocationSearchAutocompleteResponse, AppError>)
    ensures
        outcome_view(reply) == autocomplete_reply(*found),
{
    match found {
        Ok(output) => {
            let mut predictions: Vec<GetLocationSearchAutocompleteResponseDataPrediction> =
                Vec::new();
            let mut i: usize = 0;
            proof {
                assert(views(predictions@) =~= output@.take(0));
            }
            while i < output.predictions.len()
                invariant
                    i <= output.predictions.len(),
                    views(predictions@) == output@.take(i as int),
                decreases output.predictions.len() - i,
            {
                let ghost before = views(predictions@);
                let prediction = GetLocationSearchAutocompleteResponseDataPrediction {
                    main_text: output.predictions[i].main_text.clone(),
                    secondary_text: output.predictions[i].secondary_text.clone(),
                    place_id: output.predictions[i].place_id.clone(),
                };
                predictions.push(prediction);
                proof {
                    assert(views(predictions@) =~= before.push(prediction@));
                    assert(output@.take(i + 1) =~= output@.take(i as int).push(output@[i as int]));
                }
                i += 1;
            }
            proof {
                assert(output@.take(i as int) =~= output@);
            }
            Ok(
                GetLocationSearchAutocompleteResponse {
                    data: GetLocationSearchAutocompleteResponseData { predictions },
                },
            )
        },
        Err(_) => Err(
            AppError::new(INTERNAL_SERVER_ERROR, "Failed to fetch location search autocomplete"),
        ),
    }
}

} // verus!
