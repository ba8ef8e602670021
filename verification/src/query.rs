//! The query of a request: it has to name a place.

use crate::status::BAD_REQUEST;
use vstd::prelude::*;
use vstd::string::*;

verus! {

/// What is said to a request that names no place.
pub open spec fn missing_city_message() -> Seq<char> {
    "Failed to deserialize query string: missing field `city`"@
}

/// The name of the place that a request asks for, given its parameter
/// `city` as far as the request has one. A request without it is answered
/// 400, with a message that names the parameter.
pub fn required_city(city: Option<String>) -> (r: Result<String, (u16, String)>)
    ensures
        match city {
            Some(name) => r == Ok::<String, (u16, String)>(name),
            None => r matches Err(answer) && answer.0 == BAD_REQUEST && answer.1@
                == missing_city_message(),
        },
{
    match city {
        Some(name) => Ok(name),
        None => Err(
            (
                BAD_REQUEST,
                String::from_str("Failed to deserialize query string: missing field `city`"),
            ),
        ),
    }
}

} // verus!
