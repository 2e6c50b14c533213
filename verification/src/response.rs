use vstd::prelude::*;

verus! {

/// The HTTP statuses the service answers with.
#[derive(Clone, Copy, Debug, PartialEq, Eq, Structural)]
pub enum Status {
    BadRequest,
    Unauthorized,
    Forbidden,
    NotFound,
    TooManyRequests,
    InternalServerError,
}

/// The numeric HTTP code of a status.
pub open spec fn status_code(s: Status) -> u16 {
    match s {
        Status::BadRequest => 400,
        Status::Unauthorized => 401,
        Status::Forbidden => 403,
        Status::NotFound => 404,
        Status::TooManyRequests => 429,
        Status::InternalServerError => 500,
    }
}

impl Status {
    /// The numeric HTTP code, as sent on the wire.
    pub fn code(&self) -> (c: u16)
        ensures
            c == status_code(*self),
    {
        match self {
            Status::BadRequest => 400,
            Status::Unauthorized => 401,
            Status::Forbidden => 403,
            Status::NotFound => 404,
            Status::TooManyRequests => 429,
            Status::InternalServerError => 500,
        }
    }
}

/// An error answer: a status and the text sent as the body.
#[derive(Debug)]
pub struct ApiError {
    pub status: Status,
    pub message: String,
}

impl ApiError {
    /// An internal-server-error answer carrying `message` (the text of a
    /// failed database or parsing operation).
    pub fn internal(message: String) -> (e: ApiError)
        ensures
            e.status == Status::InternalServerError,
            e.message == message,
    {
        ApiError { status: Status::InternalServerError, message }
    }
}

} // verus!
