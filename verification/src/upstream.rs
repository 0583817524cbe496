//! What comes back from one call to an upstream service, as plain values.

use vstd::prelude::*;
use vstd::string::*;
use crate::app_error::NOT_FOUND;
use crate::errors::{TransitClientError, TransitClientErrorView};

verus! {

/// The outcome of a call whose status code is not examined.
pub enum Fetched<T> {
    /// The request could not be sent; the text says why.
    Failed(String),
    /// A reply came, but its body could not be decoded; the text says why.
    Undecodable(String),
    /// The decoded body.
    Decoded(T),
}

/// The outcome of a call whose status code is examined before the body.
pub enum Checked<T> {
    /// The request could not be sent; the text says why.
    Failed(String),
    /// The reply carried a client or server error status; the text describes it.
    Rejected(u16, String),
    /// The status was acceptable, but the body could not be decoded.
    Undecodable(String),
    /// The decoded body.
    Decoded(T),
}

/// A borrowed outcome as an outcome, its error replaced by the error's model.
pub open spec fn lent_view<T, E: View>(outcome: Result<&T, E>) -> Result<T, E::V> {
    match outcome {
        Ok(value) => Ok(*value),
        Err(error) => Err(error@),
    }
}

/// An outcome with value and error replaced by their models.
pub open spec fn outcome_view<T: View, E: View>(outcome: Result<T, E>) -> Result<T::V, E::V> {
    match outcome {
        Ok(value) => Ok(value@),
        Err(error) => Err(error@),
    }
}

impl<T> Fetched<T> {
    /// The body of the reply, or the text of the failure behind the prefix
    /// that belongs to its kind.
    pub open spec fn received(self, unsent: Seq<char>, unread: Seq<char>) -> Result<T, Seq<char>> {
        match self {
            Fetched::Failed(reason) => Err(unsent + reason@),
            Fetched::Undecodable(reason) => Err(unread + reason@),
            Fetched::Decoded(body) => Ok(body),
        }
    }

    /// The body of the reply, or a text that describes the failure: `unsent`
    /// and the reason where the request could not be sent, `unread` and the
    /// reason where the body could not be decoded.
    pub fn body(&self, unsent: &str, unread: &str) -> (outcome: Result<&T, String>)
        ensures
            lent_view(outcome) == self.received(unsent@, unread@),
    {
        match self {
            Fetched::Failed(reason) => Err(String::from_str(unsent).concat(reason.as_str())),
            Fetched::Undecodable(reason) => Err(String::from_str(unread).concat(reason.as_str())),
            Fetched::Decoded(body) => Ok(body),
        }
    }
}

impl<T> Checked<T> {
    /// The body of the reply, or the error that the reply amounts to where
    /// every failure is internal.
    pub open spec fn accepted(self) -> Result<T, TransitClientErrorView> {
        match self {
            Checked::Failed(reason) => Err(TransitClientErrorView::Internal(reason@)),
            Checked::Rejected(_, reason) => Err(TransitClientErrorView::Internal(reason@)),
            Checked::Undecodable(reason) => Err(TransitClientErrorView::Internal(reason@)),
            Checked::Decoded(body) => Ok(body),
        }
    }

    /// The body of the reply, or the error that the reply amounts to where
    /// the status 404 means that the resource asked for does not exist.
    pub open spec fn accepted_or_not_found(self) -> Result<T, TransitClientErrorView> {
        match self {
            Checked::Rejected(status, _) if status == NOT_FOUND => Err(
                TransitClientErrorView::ResourceNotFound,
            ),
            _ => self.accepted(),
        }
    }

    /// The body of the reply, or the error that the reply amounts to, every
    /// failure being internal.
    pub fn body(&self) -> (outcome: Result<&T, TransitClientError>)
        ensures
            lent_view(outcome) == self.accepted(),
    {
        match self {
            Checked::Failed(reason) => Err(TransitClientError::Internal(reason.clone())),
            Checked::Rejected(_, reason) => Err(TransitClientError::Internal(reason.clone())),
            Checked::Undecodable(reason) => Err(TransitClientError::Internal(reason.clone())),
            Checked::Decoded(body) => Ok(body),
        }
    }

    /// The body of the reply, or the error that the reply amounts to, the
    /// status 404 meaning that the resource does not exist.
    pub fn body_or_not_found(&self) -> (outcome: Result<&T, TransitClientError>)
        ensures
            lent_view(outcome) == self.accepted_or_not_found(),
    {
        match self {
            Checked::Failed(reason) => Err(TransitClientError::Internal(reason.clone())),
            Checked::Rejected(status, reason) => {
                if *status == NOT_FOUND {
                    Err(TransitClientError::ResourceNotFound)
                } else {
                    Err(TransitClientError::Internal(reason.clone()))
                }
            },
            Checked::Undecodable(reason) => Err(TransitClientError::Internal(reason.clone())),
            Checked::Decoded(body) => Ok(body),
        }
    }
}

/// A reply is answered with "resource not found" exactly when it carries
/// the status 404; every other failure is internal.
pub proof fn lemma_not_found_exactly_on_404<T>(reply: Checked<T>)
    ensures
        reply.accepted_or_not_found() == Err::<T, TransitClientErrorView>(
            TransitClientErrorView::ResourceNotFound,
        ) <==> (exists|reason: String| reply == Checked::<T>::Rejected(NOT_FOUND, reason)),
{
    match reply {
        Checked::Rejected(status, reason) => {
            if status == NOT_FOUND {
                assert(reply == Checked::<T>::Rejected(NOT_FOUND, reason));
            }
        },
        _ => {},
    }
}

} // verus!
