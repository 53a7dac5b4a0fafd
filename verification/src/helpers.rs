//! Wording of failures for the user.

use crate::fetch::{failure_message_spec, FetchError, FetchFailure};
use vstd::prelude::*;

verus! {

/// The sentence that a failed call is shown to the user with.
pub open spec fn user_message_spec(error: FetchError) -> Seq<char> {
    match error {
        FetchError::Forbidden => "The API key is invalid."@,
        FetchError::Timeout => "The API call timed out."@,
        FetchError::NoInternet => "No internet access."@,
        FetchError::BadRequest | FetchError::NotFound | FetchError::TooManyRequests
        | FetchError::ServerError(_) => "An error occurred."@,
        FetchError::Unknown | FetchError::UnknownError(_) | FetchError::Other =>
            "An error occurred"@,
    }
}

/// What a page shows of a fetch that brought nothing: the sentence for the
/// user where the call failed, the line of the log where the worker did.
pub open spec fn shown_failure_spec(failure: FetchFailure) -> Seq<char> {
    match failure {
        FetchFailure::Call(error) => user_message_spec(error),
        FetchFailure::WorkerPanicked(_) => failure_message_spec(failure),
    }
}

/// Words a failed call for the user: an invalid key, a timeout and a missing
/// network are named, every other failure is only reported as one. There is a
/// sentence for every failure, so the answer is never `None`.
pub fn map_error(err: FetchError) -> (shown: Option<String>)
    ensures
        shown matches Some(text) && text@ == user_message_spec(err),
{
    match err {
        FetchError::Forbidden => Some(String::from_str("The API key is invalid.")),
        FetchError::Timeout => Some(String::from_str("The API call timed out.")),
        FetchError::NoInternet => Some(String::from_str("No internet access.")),
        FetchError::BadRequest => Some(String::from_str("An error occurred.")),
        FetchError::NotFound => Some(String::from_str("An error occurred.")),
        FetchError::TooManyRequests => Some(String::from_str("An error occurred.")),
        FetchError::ServerError(_) => Some(String::from_str("An error occurred.")),
        FetchError::Unknown => Some(String::from_str("An error occurred")),
        FetchError::UnknownError(_) => Some(String::from_str("An error occurred")),
        FetchError::Other => Some(String::from_str("An error occurred")),
    }
}

/// Words a fetch that brought nothing for the page that started it.
pub fn describe_failure(failure: FetchFailure) -> (shown: Option<String>)
    ensures
        shown matches Some(text) && text@ == shown_failure_spec(failure),
{
    match failure {
        FetchFailure::Call(error) => map_error(error),
        FetchFailure::WorkerPanicked(detail) => Some(
            FetchFailure::WorkerPanicked(detail).message(),
        ),
    }
}

} // verus!
