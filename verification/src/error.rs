use vstd::prelude::*;

verus! {

/// HTTP status of a request the client sent in a form the service rejects.
pub const STATUS_BAD_REQUEST: u16 = 400;
/// HTTP status of a request without valid credentials.
pub const STATUS_UNAUTHORIZED: u16 = 401;
/// HTTP status of a request for something that does not exist.
pub const STATUS_NOT_FOUND: u16 = 404;
/// HTTP status of a match upload that fails the anti-cheat rules.
pub const STATUS_NOT_ACCEPTABLE: u16 = 406;
/// HTTP status of a request that collides with existing data.
pub const STATUS_CONFLICT: u16 = 409;
/// HTTP status of a failure on the service's side.
pub const STATUS_INTERNAL_SERVER_ERROR: u16 = 500;

/// A refused request: the HTTP status and the message sent back with it.
pub struct ApiError {
    pub status: u16,
    pub message: String,
}

/// What an [`ApiError`] says: its status and the characters of its message.
pub struct ApiErrorView {
    pub status: u16,
    pub message: Seq<char>,
}

impl View for ApiError {
    type V = ApiErrorView;

    open spec fn view(&self) -> ApiErrorView {
        ApiErrorView { status: self.status, message: self.message@ }
    }
}

/// The error with the given status and message.
pub open spec fn api_error(status: u16, message: Seq<char>) -> ApiErrorView {
    ApiErrorView { status, message }
}

impl ApiError {
    pub fn new(status: u16, message: &str) -> (e: ApiError)
        ensures
            e@ == api_error(status, message@),
    {
        ApiError { status, message: message.to_owned() }
    }
}

} // verus!
