//! The error that the boundary hands to a client: a status code and a
//! message that never carries upstream text.

use vstd::prelude::*;
use vstd::string::*;

verus! {

/// Status code of a reply that carries what was asked for.
pub const OK: u16 = 200;

/// Status code for a request that lacks the expected credential.
pub const UNAUTHORIZED: u16 = 401;

/// Status code for an unknown resource: the upstream service reports one
/// with it, and so does the boundary.
pub const NOT_FOUND: u16 = 404;

/// Status code for every other failure.
pub const INTERNAL_SERVER_ERROR: u16 = 500;

/// An error as a client sees it.
#[derive(Debug)]
pub struct AppError {
    pub code: u16,
    pub message: String,
}

/// Model of an [`AppError`].
pub struct AppErrorView {
    pub code: u16,
    pub message: Seq<char>,
}

impl View for AppError {
    type V = AppErrorView;

    open spec fn view(&self) -> AppErrorView {
        AppErrorView { code: self.code, message: self.message@ }
    }
}

/// The error for a failure whose cause is not the client's.
pub open spec fn internal_server_error() -> AppErrorView {
    AppErrorView { code: INTERNAL_SERVER_ERROR, message: "Internal Server Error"@ }
}

impl AppError {
    /// An error with the given status code and message.
    pub fn new(code: u16, message: &str) -> (error: Self)
        ensures
            error@ == (AppErrorView { code, message: message@ }),
    {
        AppError { code, message: String::from_str(message) }
    }

    /// The error for a failure whose cause is not the client's.
    pub fn internal() -> (error: Self)
        ensures
            error@ == internal_server_error(),
    {
        AppError::new(INTERNAL_SERVER_ERROR, "Internal Server Error")
    }
}

} // verus!
