//! The places-autocomplete reply.

use vstd::prelude::*;
use crate::model::{views, Prediction};

verus! {

/// The two lines of text of a suggestion.
pub struct GoogleAutocompleteResponsePredictionStructuredFormatting {
    pub main_text: String,
    pub secondary_text: String,
}

impl View for GoogleAutocompleteResponsePredictionStructuredFormatting {
    type V = (Seq<char>, Seq<char>);

    open spec fn view(&self) -> (Seq<char>, Seq<char>) {
        (self.main_text@, self.secondary_text@)
    }
}

/// One suggestion.
pub struct GoogleAutocompleteResponsePrediction {
    pub place_id: String,
    pub structed_formatting: GoogleAutocompleteResponsePredictionStructuredFormatting,
}

impl View for GoogleAutocompleteResponsePrediction {
    type V = Prediction;

    open spec fn view(&self) -> Prediction {
        Prediction {
            main_text: self.structed_formatting@.0,
            secondary_text: self.structed_formatting@.1,
            place_id: self.place_id@,
        }
    }
}

/// The suggestions, in upstream order.
pub struct GoogleAutocompleteResponse {
    pub predictions: Vec<GoogleAutocompleteResponsePrediction>,
}

impl View for GoogleAutocompleteResponse {
    type V = Seq<Prediction>;

    open spec fn view(&self) -> Seq<Prediction> {
        views(self.predictions@)
    }
}

} // verus!
