//! The history of searches: what a new row holds, and which rows count as
//! the most recent.

use crate::services::weather_service::LatLong;
use vstd::prelude::*;
use vstd::string::*;

verus! {

broadcast use vstd::seq_lib::group_to_multiset_ensures;

/// The error of `sea_orm`, carried through without a look inside.
#[verifier::external_type_specification]
#[verifier::external_body]
pub struct ExDbErr(sea_orm::DbErr);

/// Why the history could not be read or written.
#[derive(Debug)]
pub enum RepositoryError {
    Database(sea_orm::DbErr),
}

impl From<sea_orm::DbErr> for RepositoryError {
    fn from(error: sea_orm::DbErr) -> (e: RepositoryError) {
        RepositoryError::Database(error)
    }
}

impl vstd::std_specs::convert::FromSpecImpl<sea_orm::DbErr> for RepositoryError {
    open spec fn obeys_from_spec() -> bool {
        true
    }

    open spec fn from_spec(error: sea_orm::DbErr) -> RepositoryError {
        RepositoryError::Database(error)
    }
}

/// The description of a failed read or write, given what the store said.
pub open spec fn database_message(detail: Seq<char>) -> Seq<char> {
    "Database error: "@ + detail
}

/// What `sea_orm::DbErr` prints as, through its `Display`. Nothing is
/// claimed of the text.
#[verifier::external_body]
fn describe(error: &sea_orm::DbErr) -> (detail: String) {
    error.to_string()
}

/// Puts the store's own words behind `Database error: `.
pub fn database_error_line(detail: &str) -> (line: String)
    ensures
        line@ == database_message(detail@),
{
    let mut line = String::from_str("Database error: ");
    line.append(detail);
    line
}

impl RepositoryError {
    /// The one-line description of the error.
    pub fn to_string(&self) -> (line: String)
        ensures
            exists|detail: Seq<char>| line@ == database_message(detail),
    {
        match self {
            RepositoryError::Database(error) => {
                let detail = describe(error);
                database_error_line(detail.as_str())
            },
        }
    }
}

/// An instant of universal time: whole seconds since the start of 1970,
/// and the nanoseconds into that second.
#[derive(Clone, Copy, Debug, PartialEq, Eq, Structural)]
pub struct Timestamp {
    pub seconds: i64,
    pub nanos: u32,
}

impl Timestamp {
    /// Whether `self` comes after `other`: by the seconds, and within one
    /// second by the nanoseconds.
    pub open spec fn after(self, other: Timestamp) -> bool {
        self.seconds > other.seconds || (self.seconds == other.seconds && self.nanos
            > other.nanos)
    }
}

/// One search, as the store holds it. The store numbers the rows as they
/// are added; the two coordinates are binary32 bit patterns.
#[derive(Clone, Debug, PartialEq, Eq)]
pub struct Model {
    pub id: i32,
    pub name: String,
    pub lat: u32,
    pub long: u32,
    pub created_at: Timestamp,
}

/// One search, as it is handed to the store: a row without its number.
#[derive(Clone, Debug, PartialEq, Eq)]
pub struct NewSearch {
    pub name: String,
    pub coords: LatLong,
    pub created_at: Timestamp,
}

/// Whether `a` is more recent than `b`: created later, or at the same
/// instant and added later.
pub open spec fn more_recent(a: Model, b: Model) -> bool {
    a.created_at.after(b.created_at) || (a.created_at == b.created_at && a.id > b.id)
}

/// Whether no row of `rows` is followed by a more recent one.
pub open spec fn newest_first(rows: Seq<Model>) -> bool {
    forall|i: int, j: int| 0 <= i < j < rows.len() ==> !more_recent(rows[j], rows[i])
}

/// Whether `recent` holds the `limit` most recent rows of `rows`, the most
/// recent first, or all of them where there are fewer. Every row of
/// `recent` is a row of `rows`, no more often than it stands there, and a
/// row that was left out is more recent than none that was taken.
pub open spec fn is_most_recent(recent: Seq<Model>, rows: Seq<Model>, limit: u64) -> bool {
    &&& recent.len() == if limit <= rows.len() {
        limit as nat
    } else {
        rows.len()
    }
    &&& newest_first(recent)
    &&& recent.to_multiset().subset_of(rows.to_multiset())
    &&& forall|row: Model, i: int|
        0 <= i < recent.len() && rows.to_multiset().count(row) > recent.to_multiset().count(row)
            ==> !#[trigger] more_recent(row, recent[i])
}

/// Of the most recent rows there are no more than were asked for, and
/// none of them was created after a row that stands before it.
pub proof fn lemma_recent_searches_are_few_and_ordered(
    recent: Seq<Model>,
    rows: Seq<Model>,
    limit: u64,
)
    requires
        is_most_recent(recent, rows, limit),
    ensures
        recent.len() <= limit,
        recent.len() <= rows.len(),
        forall|i: int, j: int|
            0 <= i < j < recent.len() ==> !(#[trigger] recent[j]).created_at.after(
                (#[trigger] recent[i]).created_at,
            ),
{
    assert forall|i: int, j: int| 0 <= i < j < recent.len() implies !(#[trigger] recent[j]).created_at.after(
        (#[trigger] recent[i]).created_at,
    ) by {
        assert(!more_recent(recent[j], recent[i]));
    }
}

/// The time of day, read from the system clock through `chrono::Utc::now`.
/// Nothing is claimed of the instant that comes back.
#[verifier::external_body]
fn now() -> (instant: Timestamp) {
    let instant = chrono::Utc::now();
    Timestamp { seconds: instant.timestamp(), nanos: instant.timestamp_subsec_nanos() }
}

/// Tells whether `a` is more recent than `b`.
fn is_more_recent(a: &Model, b: &Model) -> (newer: bool)
    ensures
        newer == more_recent(*a, *b),
{
    if a.created_at.seconds != b.created_at.seconds {
        a.created_at.seconds > b.created_at.seconds
    } else if a.created_at.nanos != b.created_at.nanos {
        a.created_at.nanos > b.created_at.nanos
    } else {
        a.id > b.id
    }
}

/// The place in `rows` of a row that none of the others is more recent
/// than.
fn most_recent_at(rows: &Vec<Model>) -> (at: usize)
    requires
        rows@.len() > 0,
    ensures
        at < rows@.len(),
        forall|j: int| 0 <= j < rows@.len() ==> !more_recent(#[trigger] rows@[j], rows@[at as int]),
{
    let mut at: usize = 0;
    let mut k: usize = 1;
    while k < rows.len()
        invariant
            at < k <= rows@.len(),
            forall|j: int| 0 <= j < k ==> !more_recent(#[trigger] rows@[j], rows@[at as int]),
        decreases rows.len() - k,
    {
        if is_more_recent(&rows[k], &rows[at]) {
            at = k;
        }
        k += 1;
    }
    at
}

/// The rules of the search history. The rows themselves are with the
/// store; what is read from it is handed in, and what is to be written is
/// handed out.
pub struct CityRepository {}

impl CityRepository {
    /// The rules; there is nothing to set up.
    pub fn new() -> (repository: CityRepository) {
        CityRepository {  }
    }

    /// The row for a search made at `now`, or at `timestamp` where one is
    /// given.
    pub fn new_search(
        &self,
        name: String,
        coords: &LatLong,
        timestamp: Option<Timestamp>,
        now: Timestamp,
    ) -> (row: NewSearch)
        ensures
            row.name == name,
            row.coords == *coords,
            row.created_at == (match timestamp {
                Some(instant) => instant,
                None => now,
            }),
    {
        let created_at = match timestamp {
            Some(instant) => instant,
            None => now,
        };
        NewSearch { name, coords: *coords, created_at }
    }

    /// The row for a search: made at `timestamp`, or at the present moment
    /// where none is given. The clock is read only where it is needed.
    pub fn save_search(&self, name: String, coords: &LatLong, timestamp: Option<Timestamp>) -> (row:
        NewSearch)
        ensures
            row.name == name,
            row.coords == *coords,
            timestamp matches Some(instant) ==> row.created_at == instant,
    {
        match timestamp {
            Some(instant) => self.new_search(name, coords, timestamp, instant),
            None => {
                let present = now();
                self.new_search(name, coords, timestamp, present)
            },
        }
    }

    /// The `limit` most recent of `rows`, the most recent first.
    pub fn get_recent_searches(&self, rows: Vec<Model>, limit: u64) -> (recent: Vec<Model>)
        ensures
            is_most_recent(recent@, rows@, limit),
    {
        let mut rest = rows;
        let mut recent: Vec<Model> = Vec::new();
        while rest.len() > 0 && (recent.len() as u64) < limit
            invariant
                recent@.len() + rest@.len() == rows@.len(),
                recent@.len() <= limit,
                newest_first(recent@),
                recent@.to_multiset().add(rest@.to_multiset()) == rows@.to_multiset(),
                forall|i: int, j: int|
                    0 <= i < recent@.len() && 0 <= j < rest@.len() ==> !more_recent(
                        #[trigger] rest@[j],
                        #[trigger] recent@[i],
                    ),
            decreases rest@.len(),
        {
            let at = most_recent_at(&rest);
            let ghost before = rest@;
            let ghost taken = recent@;
            let row = rest.remove(at);
            recent.push(row);
            proof {
                assert(rest@.to_multiset() == before.to_multiset().remove(row));
                assert(before.to_multiset().count(row) > 0);
                assert(recent@.to_multiset().add(rest@.to_multiset()) == taken.to_multiset().add(
                    before.to_multiset(),
                ));
                assert forall|i: int, j: int|
                    0 <= i < recent@.len() && 0 <= j < rest@.len() implies !more_recent(
                    #[trigger] rest@[j],
                    #[trigger] recent@[i],
                ) by {
                    let from = if j < at {
                        j
                    } else {
                        j + 1
                    };
                    assert(rest@[j] == before[from]);
                    if i < taken.len() {
                        assert(recent@[i] == taken[i]);
                    }
                }
                assert forall|i: int, j: int| 0 <= i < j < recent@.len() implies !more_recent(
                    recent@[j],
                    recent@[i],
                ) by {
                    if j == taken.len() {
                        assert(recent@[i] == taken[i]);
                        assert(recent@[j] == before[at as int]);
                    } else {
                        assert(recent@[i] == taken[i] && recent@[j] == taken[j]);
                    }
                }
            }
        }
        proof {
            assert forall|row: Model, i: int|
                0 <= i < recent@.len() && rows@.to_multiset().count(row)
                    > recent@.to_multiset().count(row) implies !#[trigger] more_recent(
                row,
                recent@[i],
            ) by {
                assert(rest@.to_multiset().count(row) > 0);
                assert(rest@.contains(row));
                let j = choose|j: int| 0 <= j < rest@.len() && rest@[j] == row;
                assert(!more_recent(rest@[j], recent@[i]));
            }
        }
        recent
    }
}

} // verus!
