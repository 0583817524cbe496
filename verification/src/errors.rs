//! Error kinds of the two upstream-facing services.

use vstd::prelude::*;
use vstd::string::*;

verus! {

/// Failure of the transit service.
#[derive(Debug)]
pub enum TransitClientError {
    /// Transport failure, unexpected status, malformed body or missing field.
    Internal(String),
    /// The upstream service reported that the referenced resource does not exist.
    ResourceNotFound,
}

/// Model of a [`TransitClientError`].
pub enum TransitClientErrorView {
    Internal(Seq<char>),
    ResourceNotFound,
}

impl TransitClientErrorView {
    /// The text shown for the error.
    pub open spec fn message(self) -> Seq<char> {
        match self {
            TransitClientErrorView::Internal(reason) => "Internal error: "@ + reason,
            TransitClientErrorView::ResourceNotFound => "Resource not found"@,
        }
    }
}

impl View for TransitClientError {
    type V = TransitClientErrorView;

    open spec fn view(&self) -> TransitClientErrorView {
        match self {
            TransitClientError::Internal(reason) => TransitClientErrorView::Internal(reason@),
            TransitClientError::ResourceNotFound => TransitClientErrorView::ResourceNotFound,
        }
    }
}

impl TransitClientError {
    /// Renders the error as text.
    pub fn to_string(&self) -> (text: String)
        ensures
            text@ == self@.message(),
    {
        match self {
            TransitClientError::Internal(reason) => {
                String::from_str("Internal error: ").concat(reason.as_str())
            },
            TransitClientError::ResourceNotFound => String::from_str("Resource not found"),
        }
    }
}

/// Failure of the places service.
#[derive(Debug)]
pub enum MapsServiceError {
    /// Transport failure, malformed body or missing field.
    Internal(String),
}

/// Model of a [`MapsServiceError`].
pub enum MapsServiceErrorView {
    Internal(Seq<char>),
}

impl MapsServiceErrorView {
    /// The text shown for the error.
    pub open spec fn message(self) -> Seq<char> {
        match self {
            MapsServiceErrorView::Internal(reason) => "Internal error: "@ + reason,
        }
    }
}

impl View for MapsServiceError {
    type V = MapsServiceErrorView;

    open spec fn view(&self) -> MapsServiceErrorView {
        match self {
            MapsServiceError::Internal(reason) => MapsServiceErrorView::Internal(reason@),
        }
    }
}

impl MapsServiceError {
    /// Renders the error as text.
    pub fn to_string(&self) -> (text: String)
        ensures
            text@ == self@.message(),
    {
        match self {
            MapsServiceError::Internal(reason) => {
                String::from_str("Internal error: ").concat(reason.as_str())
            },
        }
    }
}

} // verus!
