use forecast::handlers::stats::{
    search_record, searches, show, Progress, SearchRecord, Step, DATE_FORMAT, PAGE_SIZE,
};
use forecast::repositories::city_repository::{CityRepository, Model, RepositoryError, Timestamp};

fn row(id: i32, name: &str, seconds: i64, nanos: u32) -> Model {
    Model {
        id,
        name: name.to_string(),
        lat: 51.5074f32.to_bits(),
        long: (-0.1278f32).to_bits(),
        created_at: Timestamp { seconds, nanos },
    }
}

#[test]
fn page_lists_ten_searches() {
    assert_eq!(PAGE_SIZE, 10);
    assert_eq!(DATE_FORMAT, "%Y-%m-%d %H:%M:%S");
}

#[test]
fn line_takes_over_name_and_coordinates() {
    let model = row(7, "London", 0, 0);
    let SearchRecord { name, created_at, lat, long } =
        search_record(&model, "1970-01-01 00:00:00".to_string());
    assert_eq!(name, "London");
    assert_eq!(created_at, "1970-01-01 00:00:00");
    assert_eq!(f32::from_bits(lat), 51.5074);
    assert_eq!(f32::from_bits(long), -0.1278);
}

#[test]
fn instants_are_written_as_date_and_time() {
    let models = vec![
        row(1, "London", 1_431_648_000, 0),
        row(2, "Paris", 0, 0),
        row(3, "Oslo", 1_730_687_959, 999_999_999),
        row(4, "Rome", -1, 0),
    ];
    let page = searches(&models).unwrap();
    let written: Vec<&str> = page.searches.iter().map(|s| s.created_at.as_str()).collect();
    assert_eq!(
        written,
        [
            "2015-05-15 00:00:00",
            "1970-01-01 00:00:00",
            "2024-11-04 02:39:19",
            "1969-12-31 23:59:59",
        ]
    );
    let listed: Vec<&str> = page.searches.iter().map(|s| s.name.as_str()).collect();
    assert_eq!(listed, ["London", "Paris", "Oslo", "Rome"]);
}

#[test]
fn written_instants_agree_with_chrono() {
    for seconds in [0i64, 1, 59, 86_399, 86_400, 951_782_400, 1_709_164_800, 4_102_444_800, -86_400] {
        let model = row(1, "x", seconds, 123);
        let page = searches(&vec![model]).unwrap();
        let want = chrono::DateTime::from_timestamp(seconds, 123)
            .unwrap()
            .format("%Y-%m-%d %H:%M:%S")
            .to_string();
        assert_eq!(page.searches[0].created_at, want);
    }
}

#[test]
fn no_rows_make_an_empty_page() {
    let page = searches(&Vec::new()).unwrap();
    assert!(page.searches.is_empty());
}

#[test]
fn instant_out_of_range_makes_no_page() {
    assert!(searches(&vec![row(1, "x", i64::MAX, 0)]).is_none());
    assert!(searches(&vec![row(1, "x", 0, 0), row(2, "y", i64::MIN, 0)]).is_none());
    assert!(searches(&vec![row(1, "x", 0, 2_000_000_000)]).is_none());
}

#[test]
fn recent_searches_are_listed_newest_first() {
    let repo = CityRepository::new();
    let table = vec![row(1, "London", 1_730_000_010, 0), row(2, "Paris", 1_730_000_020, 0)];
    let page = searches(&repo.get_recent_searches(table, PAGE_SIZE)).unwrap();
    assert_eq!(page.searches.len(), 2);
    assert_eq!(page.searches[0].name, "Paris");
    assert_eq!(page.searches[0].created_at, "2024-10-27 03:33:40");
    assert_eq!(page.searches[1].name, "London");
    assert_eq!(page.searches[1].created_at, "2024-10-27 03:33:30");
}

/// How a request for the page was answered.
#[derive(Debug, PartialEq)]
enum Sent {
    Page(u16, String),
    Text(u16, String),
}

/// Answers a request for the page with the store and the renderer played
/// by the values given.
fn serve(table: Result<Vec<Model>, RepositoryError>, renderer_works: bool) -> Sent {
    let mut table = Some(table);
    let mut progress = Progress::Begin;
    loop {
        progress = match show(progress) {
            Step::Read { limit } => {
                assert_eq!(limit, 10);
                Progress::Read(table.take().expect("the store is asked once"))
            }
            Step::Render { page } => Progress::Rendered(if renderer_works {
                let lines: Vec<String> = page
                    .searches
                    .iter()
                    .map(|s| format!("{} at {}", s.name, s.created_at))
                    .collect();
                Ok(format!("<h1>Recent Searches</h1>{}", lines.join(";")))
            } else {
                Err("missing block".to_string())
            }),
            Step::Page { status, html } => return Sent::Page(status, html),
            Step::Fail { status, message } => return Sent::Text(status, message),
        };
    }
}

#[test]
fn test_stats_page_auth() {
    let (status, html) = match serve(Ok(Vec::new()), true) {
        Sent::Page(status, html) => (status, html),
        other => panic!("expected a page, got {other:?}"),
    };

    assert_eq!(status, 200);
    assert!(html.contains("Recent Searches"));
}

#[test]
fn stats_page_shows_the_ten_most_recent_searches() {
    let table: Vec<Model> =
        (0..12).map(|i| row(i + 1, &format!("City{i}"), 1_730_000_000 + i64::from(i), 0)).collect();
    let want = "<h1>Recent Searches</h1>\
         City11 at 2024-10-27 03:33:31;City10 at 2024-10-27 03:33:30;\
         City9 at 2024-10-27 03:33:29;City8 at 2024-10-27 03:33:28;\
         City7 at 2024-10-27 03:33:27;City6 at 2024-10-27 03:33:26;\
         City5 at 2024-10-27 03:33:25;City4 at 2024-10-27 03:33:24;\
         City3 at 2024-10-27 03:33:23;City2 at 2024-10-27 03:33:22";
    assert_eq!(serve(Ok(table.clone()), true), Sent::Page(200, want.to_string()));

    // the same page where the store gave just the ten, in its own order
    let repo = CityRepository::new();
    let mut ten = repo.get_recent_searches(table, 10);
    ten.reverse();
    assert_eq!(serve(Ok(ten), true), Sent::Page(200, want.to_string()));
}

#[test]
fn stats_page_starts_by_asking_the_store_for_ten_rows() {
    assert!(matches!(show(Progress::Begin), Step::Read { limit: 10 }));
}

#[test]
fn stats_page_that_cannot_be_rendered_is_500_in_plain_text() {
    let want = Sent::Text(500, "Failed to render template".to_string());
    assert_eq!(serve(Ok(Vec::new()), false), want);
    // an instant that cannot be written: the renderer is not even asked
    let table = vec![row(1, "x", i64::MAX, 0)];
    assert_eq!(serve(Ok(table), true), want);
}

#[test]
fn old_row_that_cannot_be_written_does_not_spoil_the_page() {
    let mut table: Vec<Model> =
        (0..10).map(|i| row(i + 2, "x", 1_730_000_000 + i64::from(i), 0)).collect();
    table.push(row(1, "ancient", i64::MIN, 0));
    assert!(matches!(serve(Ok(table), true), Sent::Page(200, _)));
}

#[test]
fn stats_page_without_its_rows_is_500_in_plain_text() {
    let error = RepositoryError::from(sea_orm::DbErr::Custom("disk full".to_string()));
    assert_eq!(serve(Err(error), true), Sent::Text(500, "Failed to fetch searches".to_string()));
}
