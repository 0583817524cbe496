//! The check of a request's credential.

use vstd::prelude::*;
use crate::app_error::{AppError, AppErrorView, UNAUTHORIZED};
use crate::text::optional_text;

verus! {

/// A request may pass where no key is configured, or where its
/// authorization header is the configured key.
pub open spec fn may_pass(auth_key: Option<Seq<char>>, header: Option<Seq<char>>) -> bool {
    match auth_key {
        Some(key) => header == Some(key),
        None => true,
    }
}

/// The error for a request that may not pass.
pub open spec fn unauthorized() -> AppErrorView {
    AppErrorView { code: UNAUTHORIZED, message: "Unauthorized"@ }
}

/// Lets a request pass, or answers it with the status 401.
pub fn auth_middleware(auth_key: &Option<String>, header: &Option<String>) -> (outcome: Result<
    (),
    AppError,
>)
    ensures
        match outcome {
            Ok(_) => may_pass(optional_text(*auth_key), optional_text(*header)),
            Err(error) => !may_pass(optional_text(*auth_key), optional_text(*header)) && error@
                == unauthorized(),
        },
{
    match auth_key {
        Some(key) => match header {
            Some(given) => {
                if *given == *key {
                    Ok(())
                } else {
                    Err(AppError::new(UNAUTHORIZED, "Unauthorized"))
                }
            },
            None => Err(AppError::new(UNAUTHORIZED, "Unauthorized")),
        },
        None => Ok(()),
    }
}

} // verus!
