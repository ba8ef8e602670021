//! The weather document: what it holds for a forecast, and with which
//! status it is sent.

use crate::binary64::{is_maximum, is_minimum, maximum, minimum, Binary64};
use crate::query::{missing_city_message, required_city};
use crate::services::weather_service::{
    coordinates_from, empty_city_message, geocoding_request, misaligned, misaligned_message,
    weather_from, Failure, Fetched,
    GeoResponse, HourlyData, LatLong, ServiceError, WeatherData, WeatherService,
};
use crate::text::is_blank;
use crate::status::{BAD_REQUEST, INTERNAL_SERVER_ERROR, NOT_FOUND, OK};
use vstd::prelude::*;
use vstd::string::*;

verus! {

/// The query of a request: the name of the place asked for.
#[derive(Clone, Debug, PartialEq, Eq)]
pub struct QueryParams {
    pub city: String,
}

impl QueryParams {
    /// The query of a request, given its parameter `city` as far as the
    /// request has one. A request without it is answered 400, with a
    /// message that names the parameter.
    pub fn new(city: Option<String>) -> (r: Result<QueryParams, (u16, String)>)
        ensures
            match city {
                Some(name) => r matches Ok(query) && query.city == name,
                None => r matches Err(answer) && answer.0 == BAD_REQUEST && answer.1@
                    == missing_city_message(),
            },
    {
        match required_city(city) {
            Ok(name) => Ok(QueryParams { city: name }),
            Err(answer) => Err(answer),
        }
    }
}

/// The weather document.
#[derive(Clone, Debug, PartialEq, Eq)]
pub struct Response {
    pub city: String,
    pub temperature: Temperature,
    pub hourly_forecast: Vec<HourlyForecast>,
}

/// The lowest and the highest temperature of a forecast.
#[derive(Clone, Copy, Debug, PartialEq, Eq, Structural)]
pub struct Temperature {
    pub min: Binary64,
    pub max: Binary64,
}

/// One hour of the document: the timestamp as the forecast gave it, and the
/// temperature.
#[derive(Clone, Debug, PartialEq, Eq)]
pub struct HourlyForecast {
    pub time: String,
    pub temperature: Binary64,
}

/// What is sent back: a weather document, or an object with the one member
/// `error`.
#[derive(Clone, Debug, PartialEq, Eq)]
pub enum Body {
    Weather(Response),
    Error(String),
}

/// A status code and the document that goes with it.
#[derive(Clone, Debug, PartialEq, Eq)]
pub struct Reply {
    pub status: u16,
    pub body: Body,
}

/// Whether `response` is the weather document for the place named `city`
/// and the forecast `hourly`: the forecast is well formed, and the document
/// holds the name, the extremes over all temperatures, and hour by hour
/// each timestamp with its temperature.
pub open spec fn is_document_of(response: Response, city: Seq<char>, hourly: HourlyData) -> bool {
    &&& hourly.aligned()
    &&& response.city@ == city
    &&& is_minimum(hourly.temperature_2m@, response.temperature.min)
    &&& is_maximum(hourly.temperature_2m@, response.temperature.max)
    &&& response.hourly_forecast@.len() == hourly.time@.len()
    &&& forall|i: int|
        0 <= i < hourly.time@.len() ==> {
            &&& (#[trigger] response.hourly_forecast@[i]).time@ == hourly.time@[i]@
            &&& response.hourly_forecast@[i].temperature == hourly.temperature_2m@[i]
        }
}

/// What has happened so far in answering a request for the weather
/// document.
#[derive(Debug)]
pub enum Progress {
    /// Nothing yet.
    Begin,
    /// The geocoding service was asked, and this came of it.
    Geocoded(Fetched<GeoResponse>),
    /// The forecast service was asked, and this came of it.
    Forecast(Fetched<WeatherData>),
}

/// What is to be done next for a request for the weather document.
#[derive(Debug)]
pub enum Step {
    /// Ask the geocoding service at `url`.
    Geocode { url: String },
    /// Ask the forecast service for the weather at `coords`.
    Forecast { coords: LatLong },
    /// Send `reply`; the request is done.
    Answer { reply: Reply },
}

/// Whether `reply` tells of the failure `failure`: 404 with the failure's
/// own message where the place was not found, 500 with the failure's
/// description otherwise.
pub open spec fn is_reply_to_failure(reply: Reply, failure: Failure) -> bool {
    match failure {
        Failure::CityNotFound(message) => {
            &&& reply.status == NOT_FOUND
            &&& reply.body matches Body::Error(text)
            &&& text@ == message
        },
        _ => {
            &&& reply.status == INTERNAL_SERVER_ERROR
            &&& reply.body matches Body::Error(text)
            &&& text@ == failure.display()
        },
    }
}

/// Whether `step` is what a request for the weather document of `city`
/// calls for after `progress`.
///
/// At the start, a name that is empty or blank is answered at once with
/// 404, and for any other name the geocoding service is asked. Its reply
/// gives the coordinates to ask the forecast service with, or the failure
/// to answer with. The forecast gives the document, which is sent with
/// 200, or the failure to answer with.
pub open spec fn is_step_after(step: Step, city: Seq<char>, progress: Progress) -> bool {
    match progress {
        Progress::Begin => if is_blank(city) {
            step matches Step::Answer { reply } && is_reply_to_failure(
                reply,
                Failure::CityNotFound(empty_city_message()),
            )
        } else {
            step matches Step::Geocode { url } && url@ == geocoding_request(city)
        },
        Progress::Geocoded(found) => match coordinates_from(city, found) {
            Ok(coords) => step == (Step::Forecast { coords }),
            Err(failure) => step matches Step::Answer { reply } && is_reply_to_failure(
                reply,
                failure,
            ),
        },
        Progress::Forecast(found) => match weather_from(found) {
            Ok(weather) => {
                &&& step matches Step::Answer { reply }
                &&& reply.status == OK
                &&& reply.body matches Body::Weather(response)
                &&& is_document_of(response, city, weather.hourly)
            },
            Err(failure) => step matches Step::Answer { reply } && is_reply_to_failure(
                reply,
                failure,
            ),
        },
    }
}

impl Progress {
    /// How far the request has come: the number of services that have
    /// been asked.
    pub open spec fn stage(self) -> nat {
        match self {
            Progress::Begin => 0,
            Progress::Geocoded(_) => 1,
            Progress::Forecast(_) => 2,
        }
    }
}

impl Step {
    /// The stage that the request is at once the step is done; `None` for
    /// an answer, after which there is nothing more to do.
    pub open spec fn leads_to(self) -> Option<nat> {
        match self {
            Step::Geocode { .. } => Some(1),
            Step::Forecast { .. } => Some(2),
            Step::Answer { .. } => None,
        }
    }
}

/// Each step takes the request one stage further, and the last stage is
/// followed by the answer: no service is asked twice.
pub proof fn lemma_every_step_advances(step: Step, city: Seq<char>, progress: Progress)
    requires
        is_step_after(step, city, progress),
    ensures
        step.leads_to() matches Some(next) ==> next == progress.stage() + 1,
        progress.stage() == 2 ==> step is Answer,
{
}

/// No service is asked about a name that is empty or blank: the request is
/// answered at once, with 404.
pub proof fn lemma_blank_city_is_answered_at_once(step: Step, city: Seq<char>)
    requires
        is_blank(city),
        is_step_after(step, city, Progress::Begin),
    ensures
        step matches Step::Answer { reply } && reply.status == NOT_FOUND && (reply.body matches Body::Error(
            text,
        ) && text@ == empty_city_message()),
{
}

/// Builds the weather document for `city` from its forecast. There is no
/// document of a forecast that is not well formed.
pub fn fetch_data(city: &str, weather: &WeatherData) -> (r: Result<Response, ServiceError>)
    ensures
        r is Ok <==> weather.hourly.aligned(),
        r matches Ok(response) ==> is_document_of(response, city@, weather.hourly),
        r matches Err(error) ==> error@ == Failure::Weather(misaligned_message()),
{
    if !weather.hourly.is_aligned() {
        return Err(misaligned());
    }
    let min_temp = minimum(&weather.hourly.temperature_2m);
    let max_temp = maximum(&weather.hourly.temperature_2m);
    let times = &weather.hourly.time;
    let temperatures = &weather.hourly.temperature_2m;
    let mut hourly_forecast: Vec<HourlyForecast> = Vec::new();
    let mut i: usize = 0;
    while i < times.len()
        invariant
            i <= times.len(),
            times.len() == temperatures.len(),
            hourly_forecast@.len() == i,
            forall|j: int|
                0 <= j < i ==> {
                    &&& (#[trigger] hourly_forecast@[j]).time@ == times@[j]@
                    &&& hourly_forecast@[j].temperature == temperatures@[j]
                },
        decreases times.len() - i,
    {
        hourly_forecast.push(
            HourlyForecast { time: times[i].clone(), temperature: temperatures[i] },
        );
        i += 1;
    }
    Ok(
        Response {
            city: String::from_str(city),
            temperature: Temperature { min: min_temp, max: max_temp },
            hourly_forecast,
        },
    )
}

/// The reply that tells of `error`.
fn failed(error: ServiceError) -> (reply: Reply)
    ensures
        is_reply_to_failure(reply, error@),
{
    match error {
        ServiceError::CityNotFound(message) => Reply {
            status: NOT_FOUND,
            body: Body::Error(message),
        },
        _ => Reply { status: INTERNAL_SERVER_ERROR, body: Body::Error(error.to_string()) },
    }
}

/// Decides what a request for the weather document calls for next, given
/// the place in `query` and what has happened so far.
pub fn get(query: &QueryParams, progress: Progress) -> (step: Step)
    ensures
        is_step_after(step, query.city@, progress),
{
    let service = WeatherService::new();
    let city = query.city.as_str();
    match progress {
        Progress::Begin => match service.geocoding_url(city) {
            Ok(url) => Step::Geocode { url },
            Err(error) => Step::Answer { reply: failed(error) },
        },
        Progress::Geocoded(found) => match service.fetch_coordinates(city, found) {
            Ok(coords) => Step::Forecast { coords },
            Err(error) => Step::Answer { reply: failed(error) },
        },
        Progress::Forecast(found) => match service.fetch_weather(found) {
            Ok(weather) => match fetch_data(city, &weather) {
                Ok(response) => Step::Answer {
                    reply: Reply { status: OK, body: Body::Weather(response) },
                },
                Err(error) => Step::Answer { reply: failed(error) },
            },
            Err(error) => Step::Answer { reply: failed(error) },
        },
    }
}

} // verus!
