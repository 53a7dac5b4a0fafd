//! What one call of the status service can come back with.

use vstd::prelude::*;

verus! {

/// The status of one area, as the status service reports it.
#[derive(Clone, Debug)]
pub struct AreaStatus {
    /// Identifier of the area, the key under which the service lists it.
    pub area: String,
    /// Display name of the area.
    pub name: String,
    /// The stage in force.
    pub stage: String,
    /// When the stage was last changed, as the service writes it.
    pub stage_updated: String,
}

/// Why a call of the status service failed.
#[derive(Clone, Debug)]
pub enum FetchError {
    /// The service did not understand the request.
    BadRequest,
    /// The service refused the token.
    Forbidden,
    /// The service knows no such endpoint.
    NotFound,
    /// The daily allowance is used up.
    TooManyRequests,
    /// The service failed, with its own account of it.
    ServerError(String),
    /// No answer came in time.
    Timeout,
    /// The network could not be reached.
    NoInternet,
    /// The transport failed and gave no reason.
    Unknown,
    /// The transport failed, with its own account of it.
    UnknownError(String),
    /// A failure that a status call has no way to meet, such as a request
    /// that lacks a search text.
    Other,
}

/// Why a fetch produced no statuses: the call failed, or the worker that made
/// it ended abnormally.
#[derive(Clone, Debug)]
pub enum FetchFailure {
    /// The call was made and failed.
    Call(FetchError),
    /// The worker did not live to report; what is known of its end.
    WorkerPanicked(String),
}

/// The line that describes a failed status call in the log.
pub open spec fn message_spec(error: FetchError) -> Seq<char> {
    match error {
        FetchError::BadRequest => "Bad API request"@,
        FetchError::Forbidden => "Token is not valid"@,
        FetchError::NotFound => "Unknown endpoint"@,
        FetchError::TooManyRequests => "Have reached API daily limit"@,
        FetchError::ServerError(detail) => "Server error: "@ + detail@,
        FetchError::Timeout => "API call timed out"@,
        FetchError::NoInternet => "No Internet access"@,
        FetchError::Unknown => "Unknown error"@,
        FetchError::UnknownError(detail) => "Unknown error: "@ + detail@,
        FetchError::Other => "Should not reach here"@,
    }
}

/// The line that describes a fetch without statuses in the log.
pub open spec fn failure_message_spec(failure: FetchFailure) -> Seq<char> {
    match failure {
        FetchFailure::Call(error) => message_spec(error),
        FetchFailure::WorkerPanicked(detail) => "Error joining thread: "@ + detail@,
    }
}

impl FetchError {
    /// The line that describes this failure in the log; a detail that the
    /// service or the transport supplied is appended to it.
    pub fn message(&self) -> (line: String)
        ensures
            line@ == message_spec(*self),
    {
        match self {
            FetchError::BadRequest => String::from_str("Bad API request"),
            FetchError::Forbidden => String::from_str("Token is not valid"),
            FetchError::NotFound => String::from_str("Unknown endpoint"),
            FetchError::TooManyRequests => String::from_str("Have reached API daily limit"),
            FetchError::ServerError(detail) => String::from_str("Server error: ").concat(
                detail.as_str(),
            ),
            FetchError::Timeout => String::from_str("API call timed out"),
            FetchError::NoInternet => String::from_str("No Internet access"),
            FetchError::Unknown => String::from_str("Unknown error"),
            FetchError::UnknownError(detail) => String::from_str("Unknown error: ").concat(
                detail.as_str(),
            ),
            FetchError::Other => String::from_str("Should not reach here"),
        }
    }
}

impl FetchFailure {
    /// The line that describes this failure in the log.
    pub fn message(&self) -> (line: String)
        ensures
            line@ == failure_message_spec(*self),
    {
        match self {
            FetchFailure::Call(error) => error.message(),
            FetchFailure::WorkerPanicked(detail) => String::from_str(
                "Error joining thread: ",
            ).concat(detail.as_str()),
        }
    }
}

} // verus!
