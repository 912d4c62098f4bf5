use next_rs::history::{AnyHistory, RouterKind};
use next_rs::location::Location;
use next_rs::prefetch::{ComponentInfo, EventKind, FetchOutcome, FetchStatus};
use next_rs::router::Router;

fn router() -> Router {
    let history = AnyHistory::new(RouterKind::Memory, Location::on_path(String::from("/")));
    Router::new(
        history,
        String::new(),
        String::from("/"),
        String::new(),
        serde_json::Value::default(),
        String::new(),
    )
}

fn loaded(markup: &str) -> FetchOutcome {
    FetchOutcome::Loaded(ComponentInfo {
        component: String::from(markup),
        err: String::new(),
    })
}

#[test]
fn concurrent_fetches_of_one_route_coalesce_into_one_load() {
    let mut r = router();
    let first = r.subscribe();
    let second = r.subscribe();
    r.push("/blog");
    // Two fetch requests before the first settles: exactly one load starts.
    assert!(r.fetch_route("/blog"));
    assert!(!r.fetch_route("/blog"));
    assert!(r.is_fetching("/blog"));
    assert_eq!(r.fetches.len(), 1);
    // The one load settles: both callers observe the same one notification.
    r.settle_fetch("/blog", loaded("<article/>"));
    assert_eq!(r.subscriptions.len(), 2);
    assert_eq!(r.subscriptions[0].token, first);
    assert_eq!(r.subscriptions[1].token, second);
    for sub in &r.subscriptions {
        assert_eq!(sub.inbox.len(), 1);
        assert_eq!(sub.inbox[0].component, "<article/>");
        assert_eq!(sub.inbox[0].err, "");
    }
    assert_eq!(r.fetches[0].status, FetchStatus::Done);
    assert!(!r.is_fetching("/blog"));
}

#[test]
fn stale_fetch_is_discarded_without_notification() {
    let mut r = router();
    r.subscribe();
    r.push("/blog");
    assert!(r.fetch_route("/blog"));
    // The active route moves on before the fetch settles.
    r.push("/about");
    let events = r.events.len();
    r.settle_fetch("/blog", loaded("<stale/>"));
    // Nobody hears about the stale result, and the record is gone.
    assert_eq!(r.subscriptions[0].inbox.len(), 0);
    assert_eq!(r.events.len(), events);
    assert!(r.fetches.is_empty());
}

#[test]
fn failed_load_notifies_with_the_generic_error() {
    let mut r = router();
    r.subscribe();
    r.push("/blog");
    assert!(r.fetch_route("/blog"));
    r.settle_fetch("/blog", FetchOutcome::LoadFailed);
    let inbox = &r.subscriptions[0].inbox;
    assert_eq!(inbox.len(), 1);
    assert_eq!(inbox[0].component, "");
    assert_eq!(inbox[0].err, "Error fetching route");
    assert_eq!(r.fetches[0].status, FetchStatus::Failed);
    assert_eq!(r.fetches[0].error.as_deref(), Some("Error fetching route"));
    // The error event fires, then the completion event, both for the full
    // current path.
    assert_eq!(r.events.len(), 2);
    assert_eq!(r.events[0].kind, EventKind::RouteChangeError);
    assert_eq!(r.events[1].kind, EventKind::RouteChangeComplete);
    assert_eq!(r.events[0].path, "/blog");
    assert_eq!(r.events[1].path, "/blog");
}

#[test]
fn clean_load_emits_only_the_completion_event() {
    let mut r = router();
    r.push("/blog");
    assert!(r.prefetch("/blog"));
    r.settle_fetch("/blog", loaded("<article/>"));
    assert_eq!(r.events.len(), 1);
    assert_eq!(r.events[0].kind, EventKind::RouteChangeComplete);
}

#[test]
fn loaded_result_carrying_an_error_text_emits_both_events() {
    let mut r = router();
    r.push("/blog");
    assert!(r.fetch_route("/blog"));
    r.settle_fetch(
        "/blog",
        FetchOutcome::Loaded(ComponentInfo {
            component: String::new(),
            err: String::from("upstream said no"),
        }),
    );
    assert_eq!(r.events.len(), 2);
    assert_eq!(r.events[0].kind, EventKind::RouteChangeError);
    assert_eq!(r.events[1].kind, EventKind::RouteChangeComplete);
}

#[test]
fn a_settled_route_can_be_fetched_again() {
    let mut r = router();
    r.push("/blog");
    assert!(r.fetch_route("/blog"));
    r.settle_fetch("/blog", loaded("<v1/>"));
    // The record is settled, not pending: a new request starts a new load.
    assert!(r.fetch_route("/blog"));
    assert!(r.is_fetching("/blog"));
    assert_eq!(r.fetches.len(), 1);
}

#[test]
fn unsubscribed_handles_receive_nothing_further() {
    let mut r = router();
    let a = r.subscribe();
    let b = r.subscribe();
    r.push("/blog");
    r.fetch_route("/blog");
    r.unsubscribe(a);
    r.settle_fetch("/blog", loaded("<x/>"));
    assert_eq!(r.subscriptions.len(), 1);
    assert_eq!(r.subscriptions[0].token, b);
    assert_eq!(r.subscriptions[0].inbox.len(), 1);
}

#[test]
fn distinct_routes_keep_distinct_records() {
    let mut r = router();
    assert!(r.fetch_route("/a"));
    assert!(r.fetch_route("/b"));
    assert_eq!(r.fetches.len(), 2);
    assert!(r.is_fetching("/a"));
    assert!(r.is_fetching("/b"));
    assert!(!r.is_fetching("/c"));
}
