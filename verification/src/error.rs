//! Errors answered to the daemon's HTTP callers.

use vstd::prelude::*;

verus! {

/// `400 Bad Request`.
pub const STATUS_BAD_REQUEST: u16 = 400;

/// `409 Conflict`.
pub const STATUS_CONFLICT: u16 = 409;

/// `500 Internal Server Error`.
pub const STATUS_INTERNAL_SERVER_ERROR: u16 = 500;

/// An error answered with an HTTP status code and a message.
#[derive(Clone, Debug)]
pub struct HttpError {
    pub status: u16,
    pub msg: String,
}

/// The mathematical model of an [`HttpError`].
pub struct HttpErrorView {
    pub status: u16,
    pub msg: Seq<char>,
}

impl View for HttpError {
    type V = HttpErrorView;

    open spec fn view(&self) -> HttpErrorView {
        HttpErrorView { status: self.status, msg: self.msg@ }
    }
}

impl HttpError {
    pub fn new(status: u16, msg: String) -> (e: HttpError)
        ensures
            e@ == (HttpErrorView { status, msg: msg@ }),
    {
        HttpError { status, msg }
    }
}

} // verus!
