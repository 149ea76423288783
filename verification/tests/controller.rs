use televido::controller::{QueryChange, SearchController};
use televido::error::RemoteError;
use televido::query::{ResultPage, SortField, SortOrder};
use televido::shows::MediathekShow;

fn show(title: &str) -> MediathekShow {
    MediathekShow {
        channel: String::from("ARD"),
        topic: String::from("Tatort"),
        title: String::from(title),
        description: None,
        timestamp: 1_700_000_000,
        duration_seconds: Some(5400),
        url_website: None,
        url_subtitle: None,
        url_video: Some(format!("https://example.org/{title}.mp4")),
        url_video_low: None,
        url_video_hd: None,
    }
}

fn page(prefix: &str, count: usize, total: u64) -> ResultPage {
    let mut items = Vec::new();
    for i in 0..count {
        items.push(show(&format!("{prefix}-{i}")));
    }
    ResultPage {
        items,
        total_results: total,
    }
}

#[test]
fn text_change_returns_debounced_ticket() {
    let mut c = SearchController::new(500);
    let ticket = c
        .on_query_changed(QueryChange::Text(String::from("tatort")))
        .expect("non-empty text plans a dispatch");
    assert_eq!(ticket.generation, 1);
    assert_eq!(ticket.delay_ms, 500);
}

#[test]
fn filter_change_dispatches_immediately() {
    let mut c = SearchController::new(500);
    c.on_query_changed(QueryChange::Text(String::from("tatort")))
        .unwrap();
    let ticket = c
        .on_query_changed(QueryChange::Everywhere(true))
        .expect("non-empty text plans a dispatch");
    assert_eq!(ticket.delay_ms, 0);
}

#[test]
fn only_last_change_in_window_dispatches() {
    let mut c = SearchController::new(500);
    let t1 = c
        .on_query_changed(QueryChange::Text(String::from("tat")))
        .unwrap();
    let t2 = c
        .on_query_changed(QueryChange::Text(String::from("tatort")))
        .unwrap();
    assert!(c.on_debounce_elapsed(t1).is_none());
    let req = c.on_debounce_elapsed(t2).expect("last ticket dispatches");
    assert_eq!(req.query.text, "tatort");
    assert_eq!(req.query.offset, 0);
    assert_eq!(req.query.size, 15);
}

#[test]
fn empty_text_clears_results_without_dispatch() {
    let mut c = SearchController::new(500);
    let t = c
        .on_query_changed(QueryChange::Text(String::from("tatort")))
        .unwrap();
    let req = c.on_debounce_elapsed(t).unwrap();
    c.on_search_success(req.generation, 0, page("a", 3, 3));
    assert_eq!(c.results().len(), 3);

    let t = c.on_query_changed(QueryChange::Text(String::from("")));
    assert!(t.is_none());
    assert_eq!(c.results().len(), 0);
    assert_eq!(c.total_results(), 0);
}

#[test]
fn stale_response_is_discarded() {
    let mut c = SearchController::new(500);
    let t1 = c
        .on_query_changed(QueryChange::Text(String::from("a")))
        .unwrap();
    let req1 = c.on_debounce_elapsed(t1).unwrap();

    // A newer change supersedes the request still in flight.
    let t2 = c
        .on_query_changed(QueryChange::Text(String::from("ab")))
        .unwrap();
    let req2 = c.on_debounce_elapsed(t2).unwrap();

    // The newer response resolves first ...
    c.on_search_success(req2.generation, 0, page("new", 2, 2));
    assert_eq!(c.results().len(), 2);
    assert_eq!(c.results()[0].title, "new-0");

    // ... and the older one arrives late: it must change nothing.
    c.on_search_success(req1.generation, 0, page("old", 5, 5));
    assert_eq!(c.results().len(), 2);
    assert_eq!(c.results()[0].title, "new-0");
    assert_eq!(c.total_results(), 2);
}

#[test]
fn load_more_with_empty_text_is_a_no_op() {
    let c = SearchController::new(500);
    assert!(c.load_more().is_none());
    assert_eq!(c.results().len(), 0);
    assert_eq!(c.total_results(), 0);
    assert_eq!(c.generation(), 0);
}

#[test]
fn load_more_offset_equals_current_length() {
    let mut c = SearchController::new(500);
    let t = c
        .on_query_changed(QueryChange::Text(String::from("tatort")))
        .unwrap();
    let req = c.on_debounce_elapsed(t).unwrap();
    c.on_search_success(req.generation, 0, page("p0", 2, 5));
    assert_eq!(c.results().len(), 2);

    let cont = c.load_more().expect("more hits are available");
    assert_eq!(cont.query.offset, 2);

    c.on_search_success(cont.generation, cont.query.offset, page("p1", 2, 5));
    assert_eq!(c.results().len(), 4);
    // The prefix is unchanged and the new items follow it.
    assert_eq!(c.results()[0].title, "p0-0");
    assert_eq!(c.results()[1].title, "p0-1");
    assert_eq!(c.results()[2].title, "p1-0");
    assert_eq!(c.results()[3].title, "p1-1");
}

#[test]
fn duplicate_continuation_response_is_not_applied_twice() {
    let mut c = SearchController::new(500);
    let t = c
        .on_query_changed(QueryChange::Text(String::from("tatort")))
        .unwrap();
    let req = c.on_debounce_elapsed(t).unwrap();
    c.on_search_success(req.generation, 0, page("p0", 2, 6));

    let cont = c.load_more().unwrap();
    c.on_search_success(cont.generation, cont.query.offset, page("p1", 2, 6));
    assert_eq!(c.results().len(), 4);
    // The same response delivered again no longer starts at the end.
    c.on_search_success(cont.generation, cont.query.offset, page("p1", 2, 6));
    assert_eq!(c.results().len(), 4);
}

#[test]
fn text_change_discards_continuation_in_flight() {
    let mut c = SearchController::new(500);
    let t = c
        .on_query_changed(QueryChange::Text(String::from("tatort")))
        .unwrap();
    let req = c.on_debounce_elapsed(t).unwrap();
    c.on_search_success(req.generation, 0, page("p0", 2, 5));

    let cont = c.load_more().unwrap();
    // The query changes while the continuation is in flight.
    let t2 = c
        .on_query_changed(QueryChange::Text(String::from("krimi")))
        .unwrap();
    let req2 = c.on_debounce_elapsed(t2).unwrap();
    c.on_search_success(req2.generation, 0, page("new", 1, 1));
    // The stale continuation arrives late and is dropped.
    c.on_search_success(cont.generation, cont.query.offset, page("p1", 2, 5));
    assert_eq!(c.results().len(), 1);
    assert_eq!(c.results()[0].title, "new-0");
}

#[test]
fn search_error_reported_only_for_current_generation() {
    let mut c = SearchController::new(500);
    let t = c
        .on_query_changed(QueryChange::Text(String::from("a")))
        .unwrap();
    let req = c.on_debounce_elapsed(t).unwrap();
    c.on_query_changed(QueryChange::Text(String::from("ab")))
        .unwrap();
    // Stale: silent.
    assert!(c.on_search_error(req.generation, RemoteError::Network).is_none());
    // Current: handed back for the error sink.
    assert_eq!(
        c.on_search_error(c.generation(), RemoteError::RateLimited),
        Some(RemoteError::RateLimited)
    );
}

#[test]
fn sort_changes_behave_like_new_queries() {
    let mut c = SearchController::new(500);
    let t = c
        .on_query_changed(QueryChange::Text(String::from("tatort")))
        .unwrap();
    let req = c.on_debounce_elapsed(t).unwrap();
    c.on_search_success(req.generation, 0, page("p0", 2, 2));

    let t2 = c
        .on_query_changed(QueryChange::Field(SortField::Duration))
        .unwrap();
    assert_eq!(t2.delay_ms, 0);
    let req2 = c.on_debounce_elapsed(t2).unwrap();
    // Same text, different settings: still a full replace at offset zero.
    assert_eq!(req2.query.offset, 0);
    assert_eq!(req2.query.sort_by, SortField::Duration);
    c.on_search_success(req2.generation, 0, page("sorted", 2, 2));
    assert_eq!(c.results()[0].title, "sorted-0");
}

#[test]
fn pagination_stops_at_total() {
    let mut c = SearchController::new(500);
    c.on_query_changed(QueryChange::Text(String::from("tatort")))
        .unwrap();
    c.on_query_changed(QueryChange::Field(SortField::Timestamp))
        .unwrap();
    let t = c
        .on_query_changed(QueryChange::Order(SortOrder::Descending))
        .unwrap();
    let req = c.on_debounce_elapsed(t).unwrap();
    assert_eq!(req.query.text, "tatort");
    assert_eq!(req.query.sort_by, SortField::Timestamp);
    assert_eq!(req.query.sort_order, SortOrder::Descending);
    assert_eq!(req.query.size, 15);

    c.on_search_success(req.generation, 0, page("p0", 15, 42));
    assert_eq!(c.results().len(), 15);
    assert_eq!(c.total_results(), 42);
    assert!(c.more_available());

    let c1 = c.load_more().unwrap();
    assert_eq!(c1.query.offset, 15);
    c.on_search_success(c1.generation, c1.query.offset, page("p1", 15, 42));
    assert_eq!(c.results().len(), 30);
    assert!(c.more_available());

    let c2 = c.load_more().unwrap();
    assert_eq!(c2.query.offset, 30);
    c.on_search_success(c2.generation, c2.query.offset, page("p2", 12, 42));
    assert_eq!(c.results().len(), 42);
    assert!(!c.more_available());

    // Everything is loaded: no further request is planned.
    assert!(c.load_more().is_none());
    assert_eq!(c.results().len(), 42);
}
