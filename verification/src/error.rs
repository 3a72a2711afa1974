//! The errors of the service and how each is answered over HTTP.
use vstd::prelude::*;

use crate::text::concat;

verus! {

/// What can go wrong while serving a request. The last three carry the
/// text of the failure they stand for.
#[derive(Debug)]
pub enum AppError {
    BadRequest(String),
    GoogleApiError(String),
    ExternalApi(String),
    Internal(String),
    Serialization(String),
    HttpClient(String),
}

/// The HTTP status code an error is answered with: 400 for a bad request or
/// a malformed body, 500 for failures of Google's or another outside
/// service and for internal errors.
pub open spec fn status_of(e: AppError) -> u16 {
    match e {
        AppError::BadRequest(_) => 400,
        AppError::GoogleApiError(_) => 500,
        AppError::ExternalApi(_) => 500,
        AppError::Internal(_) => 500,
        AppError::Serialization(_) => 400,
        AppError::HttpClient(_) => 500,
    }
}

/// The message put in the body of the answer: the detail for the first
/// three, a fixed text for the others.
pub open spec fn public_message_of(e: AppError) -> Seq<char> {
    match e {
        AppError::BadRequest(m) => m@,
        AppError::GoogleApiError(m) => m@,
        AppError::ExternalApi(m) => m@,
        AppError::Internal(_) => "Internal server error"@,
        AppError::Serialization(_) => "Invalid request format"@,
        AppError::HttpClient(_) => "External service error"@,
    }
}

/// The full description of an error.
pub open spec fn description_of(e: AppError) -> Seq<char> {
    match e {
        AppError::BadRequest(m) => "Invalid request: "@ + m@,
        AppError::GoogleApiError(m) => "Google API error: "@ + m@,
        AppError::ExternalApi(m) => "External API error: "@ + m@,
        AppError::Internal(m) => "Internal server error: "@ + m@,
        AppError::Serialization(m) => "Serialization error: "@ + m@,
        AppError::HttpClient(m) => "HTTP client error: "@ + m@,
    }
}

impl AppError {
    /// A rejected request with the given reason.
    pub fn bad_request(reason: &str) -> (r: AppError)
        ensures
            r matches AppError::BadRequest(m) && m@ == reason@,
    {
        AppError::BadRequest(reason.to_owned())
    }

    /// The HTTP status code this error is answered with.
    pub fn status_code(&self) -> (r: u16)
        ensures
            r == status_of(*self),
    {
        match self {
            AppError::BadRequest(_) => 400,
            AppError::GoogleApiError(_) => 500,
            AppError::ExternalApi(_) => 500,
            AppError::Internal(_) => 500,
            AppError::Serialization(_) => 400,
            AppError::HttpClient(_) => 500,
        }
    }

    /// The message of the answer's body.
    pub fn public_message(&self) -> (r: String)
        ensures
            r@ == public_message_of(*self),
    {
        match self {
            AppError::BadRequest(m) => m.clone(),
            AppError::GoogleApiError(m) => m.clone(),
            AppError::ExternalApi(m) => m.clone(),
            AppError::Internal(_) => "Internal server error".to_owned(),
            AppError::Serialization(_) => "Invalid request format".to_owned(),
            AppError::HttpClient(_) => "External service error".to_owned(),
        }
    }

    /// The full description of the error.
    pub fn description(&self) -> (r: String)
        ensures
            r@ == description_of(*self),
    {
        match self {
            AppError::BadRequest(m) => concat("Invalid request: ", m.as_str()),
            AppError::GoogleApiError(m) => concat("Google API error: ", m.as_str()),
            AppError::ExternalApi(m) => concat("External API error: ", m.as_str()),
            AppError::Internal(m) => concat("Internal server error: ", m.as_str()),
            AppError::Serialization(m) => concat("Serialization error: ", m.as_str()),
            AppError::HttpClient(m) => concat("HTTP client error: ", m.as_str()),
        }
    }
}

} // verus!
