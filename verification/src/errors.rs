//! How a failed lookup is answered where no page has a rule of its own.

use crate::services::weather_service::{Failure, ServiceError};
use crate::status::{BAD_GATEWAY, INTERNAL_SERVER_ERROR, NOT_FOUND};
use vstd::prelude::*;
use vstd::string::*;

verus! {

/// The message for a document that could not be read, given what the
/// parser said of it.
pub open spec fn unreadable_message(detail: Seq<char>) -> Seq<char> {
    "Failed to process response: "@ + detail
}

/// What `serde_json::Error` prints as, through its `Display`. The text
/// depends on the error alone; nothing is claimed of it.
#[verifier::external_body]
fn describe(error: &serde_json::Error) -> (detail: String) {
    error.to_string()
}

/// The answer for a document that could not be read: status 500, and what
/// the parser said.
pub fn unreadable(detail: &str) -> (answer: (u16, String))
    ensures
        answer.0 == INTERNAL_SERVER_ERROR,
        answer.1@ == unreadable_message(detail@),
{
    let mut message = String::from_str("Failed to process response: ");
    message.append(detail);
    (INTERNAL_SERVER_ERROR, message)
}

impl ServiceError {
    /// The status and the message with which the error is answered: 404 for
    /// a place that was not found, 502 where an upstream service failed, and
    /// 500 for a document that could not be read.
    pub fn into_response(self) -> (answer: (u16, String))
        ensures
            match self@ {
                Failure::CityNotFound(message) => answer.0 == NOT_FOUND && answer.1@ == message,
                Failure::Geocoding(message) => answer.0 == BAD_GATEWAY && answer.1@ == message,
                Failure::Weather(message) => answer.0 == BAD_GATEWAY && answer.1@ == message,
                Failure::InvalidResponse => answer.0 == INTERNAL_SERVER_ERROR && exists|
                    detail: Seq<char>,
                | answer.1@ == unreadable_message(detail),
            },
    {
        match self {
            ServiceError::CityNotFound(message) => (NOT_FOUND, message),
            ServiceError::GeocodingError(message) => (BAD_GATEWAY, message),
            ServiceError::WeatherError(message) => (BAD_GATEWAY, message),
            ServiceError::InvalidResponse(error) => {
                let detail = describe(&error);
                unreadable(detail.as_str())
            },
        }
    }
}

} // verus!
