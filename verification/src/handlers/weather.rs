//! The weather page: its hour labels, its table, and its answer.

use crate::binary64::{is_maximum, is_minimum, maximum, minimum, Binary64};
use crate::query::{missing_city_message, required_city};
use crate::repositories::city_repository::{CityRepository, Model, NewSearch, RepositoryError};
use crate::services::weather_service::{
    coordinates_from, empty_city_message, geocoding_request, misaligned, misaligned_message,
    weather_from, Failure, Fetched,
    GeoResponse, HourlyData, LatLong, ServiceError, WeatherData, WeatherService,
};
use crate::status::{BAD_REQUEST, INTERNAL_SERVER_ERROR, NOT_FOUND, OK};
use crate::text::{is_blank, to_chars};
use vstd::prelude::*;
use vstd::string::*;

verus! {

/// The query of a request: the name of the place asked for.
#[derive(Clone, Debug, PartialEq, Eq)]
pub struct QueryParams {
    pub city: String,
}

impl QueryParams {
    /// The query of a request, given its parameter `city` as far as the
    /// request has one. A request without it is answered 400, with a
    /// message that names the parameter.
    pub fn new(city: Option<String>) -> (r: Result<QueryParams, (u16, String)>)
        ensures
            match city {
                Some(name) => r matches Ok(query) && query.city == name,
                None => r matches Err(answer) && answer.0 == BAD_REQUEST && answer.1@
                    == missing_city_message(),
            },
    {
        match required_city(city) {
            Ok(name) => Ok(QueryParams { city: name }),
            Err(answer) => Err(answer),
        }
    }
}

/// What the weather page shows.
#[derive(Clone, Debug, PartialEq, Eq)]
pub struct WeatherTemplate {
    pub city: String,
    pub min_temp: Binary64,
    pub max_temp: Binary64,
    pub hourly_forecasts: Vec<HourlyForecast>,
}

/// One row of the page's table: the label of an hour, and its temperature.
#[derive(Clone, Debug, PartialEq, Eq)]
pub struct HourlyForecast {
    pub time: String,
    pub temp: Binary64,
}

/// Index of the first `T` in `s` at or after `from`, or `s.len()` when
/// there is none.
pub open spec fn next_separator(s: Seq<char>, from: int) -> int
    decreases s.len() - from,
{
    if from < 0 || from >= s.len() {
        s.len() as int
    } else if s[from] == 'T' {
        from
    } else {
        next_separator(s, from + 1)
    }
}

/// Whether `s` holds a `T`.
pub open spec fn has_separator(s: Seq<char>) -> bool {
    next_separator(s, 0) < s.len()
}

/// The time-of-day part of a timestamp that holds a `T`: what stands
/// between the first `T` and the next one (or the end).
pub open spec fn time_of_day(s: Seq<char>) -> Seq<char> {
    let first = next_separator(s, 0);
    s.subrange(first + 1, next_separator(s, first + 1))
}

/// Whether `s` ends in `:00`.
pub open spec fn ends_on_the_hour(s: Seq<char>) -> bool {
    &&& s.len() >= 3
    &&& s[s.len() - 3] == ':'
    &&& s[s.len() - 2] == '0'
    &&& s[s.len() - 1] == '0'
}

/// `s` with every trailing `:00` taken off.
pub open spec fn without_zero_minutes(s: Seq<char>) -> Seq<char>
    decreases s.len(),
{
    if ends_on_the_hour(s) {
        without_zero_minutes(s.take(s.len() - 3))
    } else {
        s
    }
}

/// The label under which an hour is shown. For a timestamp that holds a
/// `T` it is the time-of-day part, without trailing zero minutes. A string
/// without a `T` is its own label, whatever it ends in.
pub open spec fn time_label(s: Seq<char>) -> Seq<char> {
    if has_separator(s) {
        without_zero_minutes(time_of_day(s))
    } else {
        s
    }
}

/// Where `next_separator` points, there is a `T`, and there is none before.
pub proof fn lemma_next_separator(s: Seq<char>, from: int)
    requires
        0 <= from <= s.len(),
    ensures
        from <= next_separator(s, from) <= s.len(),
        next_separator(s, from) < s.len() ==> s[next_separator(s, from)] == 'T',
        forall|j: int| from <= j < next_separator(s, from) ==> s[j] != 'T',
    decreases s.len() - from,
{
    if from < s.len() && s[from] != 'T' {
        lemma_next_separator(s, from + 1);
    }
}

/// Taking off trailing zero minutes leaves a prefix that no longer ends in
/// `:00`.
pub proof fn lemma_without_zero_minutes(s: Seq<char>)
    ensures
        without_zero_minutes(s).len() <= s.len(),
        without_zero_minutes(s) == s.take(without_zero_minutes(s).len() as int),
        !ends_on_the_hour(without_zero_minutes(s)),
    decreases s.len(),
{
    if ends_on_the_hour(s) {
        let shorter = s.take(s.len() - 3);
        lemma_without_zero_minutes(shorter);
        assert(shorter.take(without_zero_minutes(s).len() as int) == s.take(
            without_zero_minutes(s).len() as int,
        ));
    } else {
        assert(s.take(s.len() as int) == s);
    }
}

/// A string without a `T` passes through unchanged.
pub proof fn lemma_label_without_separator(s: Seq<char>)
    requires
        forall|j: int| 0 <= j < s.len() ==> s[j] != 'T',
    ensures
        time_label(s) == s,
{
    lemma_next_separator(s, 0);
}

/// Of a date, a `T` and a time of day, the label is the time of day
/// without its trailing zero minutes.
pub proof fn lemma_label_of_date_and_time(date: Seq<char>, time: Seq<char>)
    requires
        forall|j: int| 0 <= j < date.len() ==> date[j] != 'T',
        forall|j: int| 0 <= j < time.len() ==> time[j] != 'T',
    ensures
        time_label(date + seq!['T'] + time) == without_zero_minutes(time),
{
    let s = date + seq!['T'] + time;
    let first = next_separator(s, 0);
    lemma_next_separator(s, 0);
    assert(s[date.len() as int] == 'T');
    assert(forall|j: int| 0 <= j < date.len() ==> s[j] == date[j]);
    assert(first == date.len());
    lemma_next_separator(s, first + 1);
    let next = next_separator(s, first + 1);
    assert(forall|j: int| first < j < s.len() ==> s[j] == time[j - first - 1]);
    assert(next == s.len());
    assert(s.subrange(first + 1, next) == time);
}

/// A label holds no `T`.
pub proof fn lemma_time_label_has_no_separator(s: Seq<char>)
    ensures
        forall|j: int| 0 <= j < time_label(s).len() ==> time_label(s)[j] != 'T',
{
    let first = next_separator(s, 0);
    lemma_next_separator(s, 0);
    if first < s.len() {
        lemma_next_separator(s, first + 1);
        lemma_without_zero_minutes(time_of_day(s));
    }
}

/// Labelling is idempotent: the label of a label is that label.
pub proof fn lemma_time_label_idempotent(s: Seq<char>)
    ensures
        time_label(time_label(s)) == time_label(s),
{
    lemma_time_label_has_no_separator(s);
    lemma_label_without_separator(time_label(s));
}

/// Finds the first `T` at or after `from`.
fn find_separator(chars: &Vec<char>, from: usize) -> (at: usize)
    requires
        from <= chars.len(),
    ensures
        at == next_separator(chars@, from as int),
        from <= at <= chars.len(),
{
    let mut at: usize = from;
    while at < chars.len() && chars[at] != 'T'
        invariant
            from <= at <= chars.len(),
            next_separator(chars@, from as int) == next_separator(chars@, at as int),
        decreases chars.len() - at,
    {
        at += 1;
    }
    at
}

/// Turns a timestamp such as `2024-02-23T12:00` into the label `12`.
///
/// Any string is accepted; one without a `T` comes back as it is.
pub fn format_time(time: &str) -> (label: String)
    ensures
        label@ == time_label(time@),
{
    let chars = to_chars(time);
    let n: usize = chars.len();
    let first: usize = find_separator(&chars, 0);
    if first == n {
        return String::from_str(time);
    }
    let start: usize = first + 1;
    let mut end: usize = find_separator(&chars, start);
    while end - start >= 3 && chars[end - 3] == ':' && chars[end - 2] == '0' && chars[end - 1]
        == '0'
        invariant
            start <= end <= n,
            n == chars.len(),
            chars@ == time@,
            has_separator(time@),
            without_zero_minutes(chars@.subrange(start as int, end as int)) == time_label(time@),
        decreases end - start,
    {
        assert(chars@.subrange(start as int, end as int).take(end - start - 3)
            == chars@.subrange(start as int, end - 3));
        end -= 3;
    }
    String::from_str(time.substring_char(start, end))
}

/// Whether `page` is the weather page for the place named `city` and the
/// forecast `hourly`: the forecast is well formed, and the page holds the
/// name, the extremes over all temperatures, and hour by hour the label of
/// each timestamp with its temperature.
pub open spec fn is_page_of(page: WeatherTemplate, city: Seq<char>, hourly: HourlyData) -> bool {
    &&& hourly.aligned()
    &&& page.city@ == city
    &&& is_minimum(hourly.temperature_2m@, page.min_temp)
    &&& is_maximum(hourly.temperature_2m@, page.max_temp)
    &&& page.hourly_forecasts@.len() == hourly.time@.len()
    &&& forall|i: int|
        0 <= i < hourly.time@.len() ==> {
            &&& (#[trigger] page.hourly_forecasts@[i]).time@ == time_label(hourly.time@[i]@)
            &&& page.hourly_forecasts@[i].temp == hourly.temperature_2m@[i]
        }
}

/// The message of a page that could not be rendered, given what the
/// renderer said.
pub open spec fn render_failure(why: Seq<char>) -> Seq<char> {
    "Failed to render template: "@ + why
}

/// What has happened so far in answering a request for the weather page.
#[derive(Debug)]
pub enum Progress {
    /// Nothing yet.
    Begin,
    /// The geocoding service was asked, and this came of it.
    Geocoded(Fetched<GeoResponse>),
    /// The store was asked to keep the search for the place at `coords`,
    /// and this came of it.
    Saved { coords: LatLong, outcome: Result<Model, RepositoryError> },
    /// The forecast service was asked, and this came of it.
    Forecast(Fetched<WeatherData>),
    /// The page was handed to the renderer: this is its text, or what the
    /// renderer said instead.
    Rendered(Result<String, String>),
}

/// What is to be done next for a request for the weather page.
#[derive(Debug)]
pub enum Step {
    /// Ask the geocoding service at `url`.
    Geocode { url: String },
    /// Ask the store to keep `search`.
    Save { search: NewSearch },
    /// Ask the forecast service for the weather at `coords`.
    Forecast { coords: LatLong },
    /// Render `page`.
    Render { page: WeatherTemplate },
    /// Send `body` with `status`; the request is done.
    Answer { status: u16, body: String },
}

/// Whether `step` answers with the failure `failure`: 404 with the
/// failure's own message where the place was not found, 500 with the
/// failure's description otherwise.
pub open spec fn is_answer_to_failure(step: Step, failure: Failure) -> bool {
    match failure {
        Failure::CityNotFound(message) => {
            &&& step matches Step::Answer { status, body }
            &&& status == NOT_FOUND
            &&& body@ == message
        },
        _ => {
            &&& step matches Step::Answer { status, body }
            &&& status == INTERNAL_SERVER_ERROR
            &&& body@ == failure.display()
        },
    }
}

/// Whether `step` is what a request for the weather page of `city` calls
/// for after `progress`.
///
/// At the start, a name that is empty or blank is answered at once with
/// 404, and for any other name the geocoding service is asked. Its reply
/// gives the coordinates, with which the search is handed to the store, or
/// the failure to answer with. Whatever the store made of the search, the
/// forecast service is asked next. The forecast gives the page to render,
/// or the failure to answer with. The rendered page is sent with 200; a
/// page that could not be rendered is a failure of the forecast.
pub open spec fn is_step_after(step: Step, city: Seq<char>, progress: Progress) -> bool {
    match progress {
        Progress::Begin => if is_blank(city) {
            is_answer_to_failure(step, Failure::CityNotFound(empty_city_message()))
        } else {
            step matches Step::Geocode { url } && url@ == geocoding_request(city)
        },
        Progress::Geocoded(found) => match coordinates_from(city, found) {
            Ok(coords) => {
                &&& step matches Step::Save { search }
                &&& search.name@ == city
                &&& search.coords == coords
            },
            Err(failure) => is_answer_to_failure(step, failure),
        },
        Progress::Saved { coords, outcome } => step == (Step::Forecast { coords }),
        Progress::Forecast(found) => match weather_from(found) {
            Ok(weather) => step matches Step::Render { page } && is_page_of(
                page,
                city,
                weather.hourly,
            ),
            Err(failure) => is_answer_to_failure(step, failure),
        },
        Progress::Rendered(Ok(html)) => {
            &&& step matches Step::Answer { status, body }
            &&& status == OK
            &&& body@ == html@
        },
        Progress::Rendered(Err(why)) => is_answer_to_failure(
            step,
            Failure::Weather(render_failure(why@)),
        ),
    }
}

impl Progress {
    /// How far the request has come: the number of things that have been
    /// asked for.
    pub open spec fn stage(self) -> nat {
        match self {
            Progress::Begin => 0,
            Progress::Geocoded(_) => 1,
            Progress::Saved { .. } => 2,
            Progress::Forecast(_) => 3,
            Progress::Rendered(_) => 4,
        }
    }
}

impl Step {
    /// The stage that the request is at once the step is done; `None` for
    /// an answer, after which there is nothing more to do.
    pub open spec fn leads_to(self) -> Option<nat> {
        match self {
            Step::Geocode { .. } => Some(1),
            Step::Save { .. } => Some(2),
            Step::Forecast { .. } => Some(3),
            Step::Render { .. } => Some(4),
            Step::Answer { .. } => None,
        }
    }
}

/// Each step takes the request one stage further, and the last stage is
/// followed by the answer: nothing is asked for twice.
pub proof fn lemma_every_step_advances(step: Step, city: Seq<char>, progress: Progress)
    requires
        is_step_after(step, city, progress),
    ensures
        step.leads_to() matches Some(next) ==> next == progress.stage() + 1,
        progress.stage() == 4 ==> step is Answer,
{
}

/// No service is asked about a name that is empty or blank: the request is
/// answered at once, with 404.
pub proof fn lemma_blank_city_is_answered_at_once(step: Step, city: Seq<char>)
    requires
        is_blank(city),
        is_step_after(step, city, Progress::Begin),
    ensures
        step matches Step::Answer { status, body } && status == NOT_FOUND && body@
            == empty_city_message(),
{
}

/// A search that the store could not keep holds nothing up: the forecast is
/// asked for all the same.
pub proof fn lemma_forecast_follows_whatever_the_store_said(
    step: Step,
    city: Seq<char>,
    coords: LatLong,
    outcome: Result<Model, RepositoryError>,
)
    requires
        is_step_after(step, city, Progress::Saved { coords, outcome }),
    ensures
        step == (Step::Forecast { coords }),
{
}

/// Fills in the weather page for `city` from its forecast. There is no
/// page of a forecast that is not well formed.
pub fn generate_weather_response(city: &str, weather: &WeatherData) -> (r: Result<
    WeatherTemplate,
    ServiceError,
>)
    ensures
        r is Ok <==> weather.hourly.aligned(),
        r matches Ok(page) ==> is_page_of(page, city@, weather.hourly),
        r matches Err(error) ==> error@ == Failure::Weather(misaligned_message()),
{
    if !weather.hourly.is_aligned() {
        return Err(misaligned());
    }
    let min_temp = minimum(&weather.hourly.temperature_2m);
    let max_temp = maximum(&weather.hourly.temperature_2m);
    let times = &weather.hourly.time;
    let temperatures = &weather.hourly.temperature_2m;
    let mut hourly_forecasts: Vec<HourlyForecast> = Vec::new();
    let mut i: usize = 0;
    while i < times.len()
        invariant
            i <= times.len(),
            times.len() == temperatures.len(),
            hourly_forecasts@.len() == i,
            forall|j: int|
                0 <= j < i ==> {
                    &&& (#[trigger] hourly_forecasts@[j]).time@ == time_label(times@[j]@)
                    &&& hourly_forecasts@[j].temp == temperatures@[j]
                },
        decreases times.len() - i,
    {
        hourly_forecasts.push(
            HourlyForecast { time: format_time(times[i].as_str()), temp: temperatures[i] },
        );
        i += 1;
    }
    Ok(WeatherTemplate { city: String::from_str(city), min_temp, max_temp, hourly_forecasts })
}

/// The error for a page that could not be rendered; `why` is what the
/// renderer said.
pub fn render_failed(why: &str) -> (error: ServiceError)
    ensures
        error@ == Failure::Weather(render_failure(why@)),
{
    let mut message = String::from_str("Failed to render template: ");
    message.append(why);
    ServiceError::WeatherError(message)
}

/// The answer that tells of `error`.
fn failed(error: ServiceError) -> (step: Step)
    ensures
        is_answer_to_failure(step, error@),
{
    match error {
        ServiceError::CityNotFound(message) => Step::Answer { status: NOT_FOUND, body: message },
        _ => Step::Answer { status: INTERNAL_SERVER_ERROR, body: error.to_string() },
    }
}

/// Decides what a request for the weather page calls for next, given the
/// place in `query` and what has happened so far.
pub fn show(query: &QueryParams, progress: Progress) -> (step: Step)
    ensures
        is_step_after(step, query.city@, progress),
{
    let service = WeatherService::new();
    let city = query.city.as_str();
    match progress {
        Progress::Begin => match service.geocoding_url(city) {
            Ok(url) => Step::Geocode { url },
            Err(error) => failed(error),
        },
        Progress::Geocoded(found) => match service.fetch_coordinates(city, found) {
            Ok(coords) => {
                let repository = CityRepository::new();
                Step::Save { search: repository.save_search(query.city.clone(), &coords, None) }
            },
            Err(error) => failed(error),
        },
        Progress::Saved { coords, outcome } => Step::Forecast { coords },
        Progress::Forecast(found) => match service.fetch_weather(found) {
            Ok(weather) => match generate_weather_response(city, &weather) {
                Ok(page) => Step::Render { page },
                Err(error) => failed(error),
            },
            Err(error) => failed(error),
        },
        Progress::Rendered(rendered) => match rendered {
            Ok(html) => Step::Answer { status: OK, body: html },
            Err(why) => failed(render_failed(why.as_str())),
        },
    }
}

} // verus!
