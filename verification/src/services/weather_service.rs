//! The two upstream lookups, place name to coordinates and coordinates to
//! hourly temperatures: which address each one asks, and what its reply
//! means.

use crate::binary64::Binary64;
use crate::text::{blank, is_blank};
use vstd::prelude::*;
use vstd::string::*;

verus! {

/// Where place names are looked up.
pub const GEOCODING_API_URL: &'static str = "https://geocoding-api.open-meteo.com/v1/search";

/// Where forecasts are looked up.
pub const WEATHER_API_URL: &'static str = "https://api.open-meteo.com/v1/forecast";

/// The error of `serde_json`, carried through without a look inside.
#[verifier::external_type_specification]
#[verifier::external_body]
pub struct ExJsonError(serde_json::Error);

/// Why a lookup gave no result.
#[derive(Debug)]
pub enum ServiceError {
    /// The geocoding service could not be reached, or its reply not read.
    GeocodingError(String),
    /// The forecast service could not be reached, its reply not read, or
    /// the page not rendered.
    WeatherError(String),
    /// No place goes by the name that was asked for.
    CityNotFound(String),
    /// A document was not the JSON that was expected.
    InvalidResponse(serde_json::Error),
}

/// A `ServiceError` as contracts see it: its kind, and its message as a
/// sequence of characters.
pub enum Failure {
    Geocoding(Seq<char>),
    Weather(Seq<char>),
    CityNotFound(Seq<char>),
    InvalidResponse,
}

impl View for ServiceError {
    type V = Failure;

    open spec fn view(&self) -> Failure {
        match self {
            ServiceError::GeocodingError(m) => Failure::Geocoding(m@),
            ServiceError::WeatherError(m) => Failure::Weather(m@),
            ServiceError::CityNotFound(m) => Failure::CityNotFound(m@),
            ServiceError::InvalidResponse(_) => Failure::InvalidResponse,
        }
    }
}

impl Failure {
    /// The one-line description of the failure.
    pub open spec fn display(self) -> Seq<char> {
        match self {
            Failure::Geocoding(m) => "Failed to fetch coordinates: "@ + m,
            Failure::Weather(m) => "Failed to fetch weather: "@ + m,
            Failure::CityNotFound(_) => "City not found"@,
            Failure::InvalidResponse => "Failed to parse response"@,
        }
    }
}

impl ServiceError {
    /// The one-line description of the error. The message of `CityNotFound`
    /// is not part of it.
    pub fn to_string(&self) -> (line: String)
        ensures
            line@ == self@.display(),
    {
        match self {
            ServiceError::GeocodingError(m) => {
                let mut line = String::from_str("Failed to fetch coordinates: ");
                line.append(m.as_str());
                line
            },
            ServiceError::WeatherError(m) => {
                let mut line = String::from_str("Failed to fetch weather: ");
                line.append(m.as_str());
                line
            },
            ServiceError::CityNotFound(_) => String::from_str("City not found"),
            ServiceError::InvalidResponse(_) => String::from_str("Failed to parse response"),
        }
    }
}

impl From<serde_json::Error> for ServiceError {
    fn from(error: serde_json::Error) -> (e: ServiceError) {
        ServiceError::InvalidResponse(error)
    }
}

impl vstd::std_specs::convert::FromSpecImpl<serde_json::Error> for ServiceError {
    open spec fn obeys_from_spec() -> bool {
        true
    }

    open spec fn from_spec(error: serde_json::Error) -> ServiceError {
        ServiceError::InvalidResponse(error)
    }
}

/// A point on the globe, in degrees.
#[derive(Clone, Copy, Debug, PartialEq, Eq, Structural)]
pub struct LatLong {
    pub latitude: Binary64,
    pub longitude: Binary64,
}

/// The reply of the geocoding service: the candidates for a name, best
/// first, or nothing.
#[derive(Clone, Debug, PartialEq, Eq)]
pub struct GeoResponse {
    pub results: Option<Vec<LatLong>>,
}

/// The reply of the forecast service.
#[derive(Clone, Debug, PartialEq, Eq)]
pub struct WeatherData {
    pub hourly: HourlyData,
}

/// Hour by hour, a timestamp and the temperature at two metres, in degrees
/// Celsius. `time[i]` belongs to `temperature_2m[i]`, so a series is well
/// formed only where the two are equally long: see `aligned`.
#[derive(Clone, Debug, PartialEq, Eq)]
pub struct HourlyData {
    pub time: Vec<String>,
    pub temperature_2m: Vec<Binary64>,
}

impl HourlyData {
    /// Whether the series is well formed: every timestamp has its
    /// temperature, and every temperature its timestamp.
    pub open spec fn aligned(&self) -> bool {
        self.time@.len() == self.temperature_2m@.len()
    }

    /// Tells whether the series is well formed.
    pub fn is_aligned(&self) -> (b: bool)
        ensures
            b == self.aligned(),
    {
        self.time.len() == self.temperature_2m.len()
    }
}

/// How one request to an upstream service ended.
#[derive(Debug)]
pub enum Fetched<T> {
    /// No reply was had; the message says why.
    Failed(String),
    /// A reply was had, but it was not the document expected; the message
    /// says why.
    Unreadable(String),
    /// The reply, read.
    Parsed(T),
}

/// The message for a name that is empty or blank.
pub open spec fn empty_city_message() -> Seq<char> {
    "City name cannot be empty"@
}

/// The address that is asked for the coordinates of `city`.
pub open spec fn geocoding_request(city: Seq<char>) -> Seq<char> {
    GEOCODING_API_URL@ + "?name="@ + city + "&count=1&language=en&format=json"@
}

/// The address that is asked for the forecast at a point, given its
/// latitude and longitude as decimal numbers.
pub open spec fn weather_request(latitude: Seq<char>, longitude: Seq<char>) -> Seq<char> {
    WEATHER_API_URL@ + "?latitude="@ + latitude + "&longitude="@ + longitude
        + "&hourly=temperature_2m"@
}

/// What a geocoding reply means for the name `city`.
pub open spec fn coordinates_from(city: Seq<char>, reply: Fetched<GeoResponse>) -> Result<
    LatLong,
    Failure,
> {
    if is_blank(city) {
        Err(Failure::CityNotFound(empty_city_message()))
    } else {
        match reply {
            Fetched::Failed(why) => Err(Failure::Geocoding(why@)),
            Fetched::Unreadable(why) => Err(Failure::Geocoding("Failed to parse JSON: "@ + why@)),
            Fetched::Parsed(geo) => match geo.results {
                Some(found) if found@.len() > 0 => Ok(found@[0]),
                _ => Err(Failure::CityNotFound("No coordinates found for "@ + city)),
            },
        }
    }
}

/// The message for a forecast whose timestamps and temperatures do not
/// pair up.
pub open spec fn misaligned_message() -> Seq<char> {
    "Hourly times and temperatures differ in number"@
}

/// What a forecast reply means. A forecast that was read, but in which
/// some timestamp is without its temperature or some temperature without
/// its timestamp, is no forecast.
pub open spec fn weather_from(reply: Fetched<WeatherData>) -> Result<WeatherData, Failure> {
    match reply {
        Fetched::Failed(why) => Err(Failure::Weather(why@)),
        Fetched::Unreadable(why) => Err(Failure::Weather(why@)),
        Fetched::Parsed(data) => if data.hourly.aligned() {
            Ok(data)
        } else {
            Err(Failure::Weather(misaligned_message()))
        },
    }
}

/// A name that is empty or blank has no coordinates, whatever reply is
/// held against it.
pub proof fn lemma_blank_city_is_not_found(city: Seq<char>, reply: Fetched<GeoResponse>)
    requires
        is_blank(city),
    ensures
        coordinates_from(city, reply) == Err::<LatLong, Failure>(
            Failure::CityNotFound(empty_city_message()),
        ),
{
}

/// The error for a forecast whose timestamps and temperatures do not pair
/// up.
pub fn misaligned() -> (error: ServiceError)
    ensures
        error@ == Failure::Weather(misaligned_message()),
{
    ServiceError::WeatherError(String::from_str("Hourly times and temperatures differ in number"))
}

/// Every forecast that a reply gives is well formed.
pub proof fn lemma_forecast_is_aligned(reply: Fetched<WeatherData>)
    ensures
        weather_from(reply) matches Ok(data) ==> data.hourly.aligned(),
{
}

/// The client of the two upstream services. It keeps nothing between calls.
pub struct WeatherService {}

impl WeatherService {
    /// The client; there is nothing to set up.
    pub fn new() -> (service: WeatherService) {
        WeatherService {  }
    }

    /// The address to ask for the coordinates of `city`.
    ///
    /// A name that is empty or blank is turned down here, so that no request
    /// is ever made for it.
    pub fn geocoding_url(&self, city: &str) -> (r: Result<String, ServiceError>)
        ensures
            r is Err <==> is_blank(city@),
            r matches Ok(url) ==> url@ == geocoding_request(city@),
            r matches Err(e) ==> e@ == Failure::CityNotFound(empty_city_message()),
    {
        if blank(city) {
            return Err(ServiceError::CityNotFound(String::from_str("City name cannot be empty")));
        }
        let mut url = String::from_str(GEOCODING_API_URL);
        url.append("?name=");
        url.append(city);
        url.append("&count=1&language=en&format=json");
        Ok(url)
    }

    /// Reads the reply to the request for the coordinates of `city`: the
    /// first candidate, where there is one.
    pub fn fetch_coordinates(&self, city: &str, reply: Fetched<GeoResponse>) -> (r: Result<
        LatLong,
        ServiceError,
    >)
        ensures
            is_blank(city@) ==> r matches Err(ServiceError::CityNotFound(_)),
            r is Ok <==> coordinates_from(city@, reply) is Ok,
            r matches Ok(coords) ==> coordinates_from(city@, reply) == Ok::<LatLong, Failure>(
                coords,
            ),
            r matches Err(e) ==> coordinates_from(city@, reply) == Err::<LatLong, Failure>(e@),
    {
        if blank(city) {
            return Err(ServiceError::CityNotFound(String::from_str("City name cannot be empty")));
        }
        match reply {
            Fetched::Failed(why) => Err(ServiceError::GeocodingError(why)),
            Fetched::Unreadable(why) => {
                let mut message = String::from_str("Failed to parse JSON: ");
                message.append(why.as_str());
                Err(ServiceError::GeocodingError(message))
            },
            Fetched::Parsed(geo) => {
                match geo.results {
                    Some(found) => {
                        if found.len() > 0 {
                            return Ok(found[0]);
                        }
                    },
                    None => {},
                }
                let mut message = String::from_str("No coordinates found for ");
                message.append(city);
                Err(ServiceError::CityNotFound(message))
            },
        }
    }

    /// The address to ask for the forecast at a point. The two coordinates
    /// are given as they are to be written.
    pub fn weather_url(&self, latitude: &str, longitude: &str) -> (url: String)
        ensures
            url@ == weather_request(latitude@, longitude@),
    {
        let mut url = String::from_str(WEATHER_API_URL);
        url.append("?latitude=");
        url.append(latitude);
        url.append("&longitude=");
        url.append(longitude);
        url.append("&hourly=temperature_2m");
        url
    }

    /// Reads the reply to the request for a forecast. The forecast that
    /// comes back is well formed; a reply that holds one that is not is
    /// turned down.
    pub fn fetch_weather(&self, reply: Fetched<WeatherData>) -> (r: Result<
        WeatherData,
        ServiceError,
    >)
        ensures
            r is Ok <==> (reply matches Fetched::Parsed(data) && data.hourly.aligned()),
            r matches Ok(data) ==> data.hourly.aligned(),
            r matches Ok(data) ==> weather_from(reply) == Ok::<WeatherData, Failure>(data),
            r matches Err(e) ==> weather_from(reply) == Err::<WeatherData, Failure>(e@),
    {
        match reply {
            Fetched::Failed(why) => Err(ServiceError::WeatherError(why)),
            Fetched::Unreadable(why) => Err(ServiceError::WeatherError(why)),
            Fetched::Parsed(data) => {
                if data.hourly.is_aligned() {
                    Ok(data)
                } else {
                    Err(misaligned())
                }
            },
        }
    }
}

} // verus!
