//! The page of recent searches.

use crate::repositories::city_repository::{
    is_most_recent, CityRepository, Model, RepositoryError,
};
use crate::status::{INTERNAL_SERVER_ERROR, OK};
use std::fmt::Write;
use vstd::prelude::*;
use vstd::string::*;

verus! {

/// How many searches the page lists.
pub const PAGE_SIZE: u64 = 10;

/// How the page writes an instant: date and time of day, to the second.
pub const DATE_FORMAT: &'static str = "%Y-%m-%d %H:%M:%S";

/// What the page shows.
#[derive(Clone, Debug, PartialEq, Eq)]
pub struct StatsTemplate {
    pub searches: Vec<SearchRecord>,
}

/// One line of the page: a search, with the instant at which it was made
/// written out. The two coordinates are binary32 bit patterns.
#[derive(Clone, Debug, PartialEq, Eq)]
pub struct SearchRecord {
    pub name: String,
    pub created_at: String,
    pub lat: u32,
    pub long: u32,
}

/// What `chrono` writes for the instant of universal time that lies
/// `seconds` seconds and `nanos` nanoseconds after the start of 1970, under
/// the `strftime` pattern `pattern`; `None` where `chrono` has no such
/// instant or cannot write it under that pattern.
pub uninterp spec fn utc_text(seconds: i64, nanos: u32, pattern: Seq<char>) -> Option<Seq<char>>;

/// Makes the instant with `chrono::DateTime::from_timestamp` and writes it
/// with `DateTime::format`. The text is that of `utc_text`; where
/// `from_timestamp` gives no instant, or the writing fails, there is none.
#[verifier::external_body]
fn format_utc(seconds: i64, nanos: u32, pattern: &str) -> (text: Option<String>)
    ensures
        match text {
            Some(written) => utc_text(seconds, nanos, pattern@) == Some(written@),
            None => utc_text(seconds, nanos, pattern@) is None,
        },
{
    let instant = chrono::DateTime::from_timestamp(seconds, nanos)?;
    let mut text = String::new();
    write!(text, "{}", instant.format(pattern)).ok()?;
    Some(text)
}

/// The text of the instant at which `model` was made, as the page writes
/// it.
pub open spec fn written_instant(model: Model) -> Option<Seq<char>> {
    utc_text(model.created_at.seconds, model.created_at.nanos, DATE_FORMAT@)
}

/// Whether `record` is the line for the row `model`: its name, its
/// coordinates, and its instant written out.
pub open spec fn is_line_of(record: SearchRecord, model: Model) -> bool {
    &&& record.name@ == model.name@
    &&& written_instant(model) == Some(record.created_at@)
    &&& record.lat == model.lat
    &&& record.long == model.long
}

/// Whether `page` lists `models` line by line, in their order.
pub open spec fn is_listing_of(page: StatsTemplate, models: Seq<Model>) -> bool {
    &&& page.searches@.len() == models.len()
    &&& forall|i: int|
        0 <= i < models.len() ==> is_line_of(#[trigger] page.searches@[i], models[i])
}

/// The line for the row `model`, given its instant written out.
pub fn search_record(model: &Model, created_at: String) -> (record: SearchRecord)
    ensures
        record.name@ == model.name@,
        record.created_at == created_at,
        record.lat == model.lat,
        record.long == model.long,
{
    SearchRecord { name: model.name.clone(), created_at, lat: model.lat, long: model.long }
}

/// Fills in the page from the rows to list. There is no page where the
/// instant of some row cannot be written.
pub fn searches(models: &Vec<Model>) -> (page: Option<StatsTemplate>)
    ensures
        match page {
            Some(listing) => is_listing_of(listing, models@),
            None => exists|i: int|
                0 <= i < models@.len() && written_instant(#[trigger] models@[i]) is None,
        },
{
    let mut lines: Vec<SearchRecord> = Vec::new();
    let mut i: usize = 0;
    while i < models.len()
        invariant
            i <= models.len(),
            lines@.len() == i,
            forall|j: int| 0 <= j < i ==> is_line_of(#[trigger] lines@[j], models@[j]),
        decreases models.len() - i,
    {
        let model = &models[i];
        match format_utc(model.created_at.seconds, model.created_at.nanos, DATE_FORMAT) {
            Some(created_at) => {
                lines.push(search_record(model, created_at));
            },
            None => {
                return None;
            },
        }
        i += 1;
    }
    Some(StatsTemplate { searches: lines })
}

/// What has happened so far in answering a request for the page.
#[derive(Debug)]
pub enum Progress {
    /// Nothing yet.
    Begin,
    /// The store was asked for its most recent rows: these are the rows
    /// that it gave, or the error with which the reading failed.
    Read(Result<Vec<Model>, RepositoryError>),
    /// The page was handed to the renderer: this is its text, or what the
    /// renderer said instead.
    Rendered(Result<String, String>),
}

/// What is to be done next for a request for the page.
#[derive(Debug)]
pub enum Step {
    /// Ask the store for its `limit` most recent rows.
    Read { limit: u64 },
    /// Render `page`.
    Render { page: StatsTemplate },
    /// Send the page `html`, with `status`; the request is done.
    Page { status: u16, html: String },
    /// Send `message` as plain text, with `status`; the request is done.
    Fail { status: u16, message: String },
}

/// Whether `step` sends the plain text `message` with 500.
pub open spec fn fails_with(step: Step, message: Seq<char>) -> bool {
    step matches Step::Fail { status, message: text } && status == INTERNAL_SERVER_ERROR && text@
        == message
}

/// Whether `step` shows the rows `recent`: it has them rendered, line by
/// line; or, where the instant of one of them cannot be written, it fails.
pub open spec fn shows(step: Step, recent: Seq<Model>) -> bool {
    if forall|i: int| 0 <= i < recent.len() ==> written_instant(#[trigger] recent[i]) is Some {
        step matches Step::Render { page } && is_listing_of(page, recent)
    } else {
        fails_with(step, "Failed to render template"@)
    }
}

/// Whether `step` is what a request for the page calls for after
/// `progress`.
///
/// At the start the store is asked for its `PAGE_SIZE` most recent rows.
/// Of the rows that it gives the page shows the `PAGE_SIZE` most recent,
/// the most recent first, in whatever order and number they came; where
/// they could not be read, the request fails. The rendered page is sent
/// with 200; where the page could not be rendered, the request fails. A
/// failure is answered 500, in plain text.
pub open spec fn is_step_after(step: Step, progress: Progress) -> bool {
    match progress {
        Progress::Begin => step == (Step::Read { limit: PAGE_SIZE }),
        Progress::Read(Ok(rows)) => exists|recent: Seq<Model>| #[trigger]
            is_most_recent(recent, rows@, PAGE_SIZE) && shows(step, recent),
        Progress::Read(Err(_)) => fails_with(step, "Failed to fetch searches"@),
        Progress::Rendered(Ok(html)) => {
            &&& step matches Step::Page { status, html: sent }
            &&& status == OK
            &&& sent@ == html@
        },
        Progress::Rendered(Err(_)) => fails_with(step, "Failed to render template"@),
    }
}

impl Progress {
    /// How far the request has come: the number of things that have been
    /// asked for.
    pub open spec fn stage(self) -> nat {
        match self {
            Progress::Begin => 0,
            Progress::Read(_) => 1,
            Progress::Rendered(_) => 2,
        }
    }
}

impl Step {
    /// The stage that the request is at once the step is done; `None` for
    /// an answer, after which there is nothing more to do.
    pub open spec fn leads_to(self) -> Option<nat> {
        match self {
            Step::Read { .. } => Some(1),
            Step::Render { .. } => Some(2),
            Step::Page { .. } => None,
            Step::Fail { .. } => None,
        }
    }
}

/// Each step takes the request one stage further, and the last stage is
/// followed by the answer: nothing is asked for twice.
pub proof fn lemma_every_step_advances(step: Step, progress: Progress)
    requires
        is_step_after(step, progress),
    ensures
        step.leads_to() matches Some(next) ==> next == progress.stage() + 1,
        progress.stage() == 2 ==> step.leads_to() is None,
{
}

/// The page never lists more than `PAGE_SIZE` searches, nor more than the
/// store gave.
pub proof fn lemma_page_is_short(step: Step, rows: Vec<Model>)
    requires
        is_step_after(step, Progress::Read(Ok(rows))),
        step is Render,
    ensures
        step->page.searches@.len() <= PAGE_SIZE,
        step->page.searches@.len() <= rows@.len(),
{
    let recent = choose|recent: Seq<Model>| #[trigger]
        is_most_recent(recent, rows@, PAGE_SIZE) && shows(step, recent);
    assert(is_listing_of(step->page, recent));
}

/// The failure that sends `message`.
fn fail(message: &str) -> (step: Step)
    ensures
        fails_with(step, message@),
{
    Step::Fail { status: INTERNAL_SERVER_ERROR, message: String::from_str(message) }
}

/// Decides what a request for the page calls for next, given what has
/// happened so far.
pub fn show(progress: Progress) -> (step: Step)
    ensures
        is_step_after(step, progress),
{
    match progress {
        Progress::Begin => Step::Read { limit: PAGE_SIZE },
        Progress::Read(found) => match found {
            Ok(rows) => {
                let repository = CityRepository::new();
                let ghost all = rows@;
                let recent = repository.get_recent_searches(rows, PAGE_SIZE);
                let step = match searches(&recent) {
                    Some(page) => {
                        assert forall|i: int| 0 <= i < recent@.len() implies written_instant(
                            #[trigger] recent@[i],
                        ) is Some by {
                            assert(is_line_of(page.searches@[i], recent@[i]));
                        }
                        Step::Render { page }
                    },
                    None => fail("Failed to render template"),
                };
                assert(is_most_recent(recent@, all, PAGE_SIZE) && shows(step, recent@));
                step
            },
            Err(_) => fail("Failed to fetch searches"),
        },
        Progress::Rendered(rendered) => match rendered {
            Ok(html) => Step::Page { status: OK, html },
            Err(_) => fail("Failed to render template"),
        },
    }
}

} // verus!
