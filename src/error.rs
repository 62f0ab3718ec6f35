use vstd::prelude::*;
use vstd::string::StringExecFns;

verus! {

/// The failures that the library reports to its callers.
///
/// `BadRequest` carries the rule that the input broke; it also stands for a
/// check refused on a disabled monitor. `InternalServerError` stands for a
/// failure of the prober or of the store that the caller did not cause.
#[derive(Debug, Clone, PartialEq, Eq)]
pub enum ApiError {
    NotFound,
    BadRequest(String),
    InternalServerError,
}

/// `e` is a `BadRequest` whose message reads `msg`.
pub open spec fn bad_request_with(e: ApiError, msg: Seq<char>) -> bool {
    e matches ApiError::BadRequest(m) && m@ == msg
}

pub open spec fn spec_status_code(e: ApiError) -> u16 {
    match e {
        ApiError::NotFound => 404,
        ApiError::BadRequest(_) => 400,
        ApiError::InternalServerError => 500,
    }
}

pub open spec fn spec_message(e: ApiError) -> Seq<char> {
    match e {
        ApiError::NotFound => "Data not found"@,
        ApiError::BadRequest(m) => m@,
        ApiError::InternalServerError => "Internal server error"@,
    }
}

impl ApiError {
    /// The HTTP status under which the error is answered.
    pub fn status_code(&self) -> (r: u16)
        ensures
            r == spec_status_code(*self),
    {
        match self {
            ApiError::NotFound => 404,
            ApiError::BadRequest(_) => 400,
            ApiError::InternalServerError => 500,
        }
    }

    /// The text of the `error` member of the answer's body.
    pub fn message(&self) -> (r: String)
        ensures
            r@ == spec_message(*self),
    {
        match self {
            ApiError::NotFound => String::from_str("Data not found"),
            ApiError::BadRequest(m) => m.clone(),
            ApiError::InternalServerError => String::from_str("Internal server error"),
        }
    }
}

/// A `BadRequest` with the given message.
pub fn bad_request(msg: &str) -> (r: ApiError)
    ensures
        bad_request_with(r, msg@),
{
    ApiError::BadRequest(String::from_str(msg))
}

} // verus!
