use next_rs::history::{AnyHistory, NavigationError, RouterKind};
use next_rs::location::{Location, StateValue};
use next_rs::router::{BaseRouter, NextRouter, Router, RouterProps};

fn router_with_basename(basename: &str) -> Router {
    let history = AnyHistory::new(
        RouterKind::Memory,
        Location::on_path(String::from("/")),
    );
    Router::new(
        history,
        String::from(basename),
        String::from("/"),
        String::new(),
        serde_json::Value::default(),
        String::new(),
    )
}

fn query_of(key: &str, value: &str) -> serde_json::Value {
    let mut map = serde_json::Map::new();
    map.insert(String::from(key), serde_json::Value::String(String::from(value)));
    serde_json::Value::Object(map)
}

#[test]
fn push_prefixes_the_basename_and_tracks_the_route() {
    let mut router = router_with_basename("/app");
    router.push("/blog");
    assert_eq!(router.history.location().path(), "/app/blog");
    assert_eq!(router.route, "/blog");
    assert_eq!(router.as_path, "/app/blog");
}

#[test]
fn replace_keeps_the_stack_depth() {
    let mut router = router_with_basename("");
    router.push("/a");
    let depth = router.history.entries.len();
    router.replace("/b");
    assert_eq!(router.history.entries.len(), depth);
    assert_eq!(router.history.location().path(), "/b");
}

#[test]
fn back_and_forward_move_by_one() {
    let mut router = router_with_basename("");
    router.push("/a");
    router.push("/b");
    router.back();
    assert_eq!(router.history.location().path(), "/a");
    router.forward();
    assert_eq!(router.history.location().path(), "/b");
}

#[test]
fn kind_reports_the_provider_variant() {
    let router = router_with_basename("");
    assert_eq!(router.kind(), RouterKind::Memory);
}

#[test]
fn push_with_state_carries_the_state_through() {
    let mut router = router_with_basename("/app");
    router.push_with_state("/blog", "scroll=120");
    match router.history.location().state() {
        StateValue::Text(s) => assert_eq!(s, "scroll=120"),
        _ => panic!("state was not carried"),
    }
    assert_eq!(router.history.location().path(), "/app/blog");
}

#[test]
fn push_with_query_encodes_the_query() {
    let mut router = router_with_basename("");
    let query = query_of("q", "rust");
    router.push_with_query("/search", &query).expect("a plain map encodes");
    assert_eq!(router.history.location().path(), "/search");
    assert_eq!(router.history.location().query_str(), "q=rust");
}

#[test]
fn push_with_query_and_state_carries_both() {
    let mut router = router_with_basename("");
    let query = query_of("q", "rust");
    router
        .push_with_query_and_state("/search", &query, "snapshot")
        .expect("a plain map encodes");
    assert_eq!(router.history.location().query_str(), "q=rust");
    match router.history.location().state() {
        StateValue::Text(s) => assert_eq!(s, "snapshot"),
        _ => panic!("state was not carried"),
    }
}

#[test]
fn replace_with_query_and_state_overwrites_in_place() {
    let mut router = router_with_basename("");
    router.push("/a");
    let depth = router.history.entries.len();
    let query = query_of("page", "2");
    router
        .replace_with_query_and_state("/a", &query, serde_json::Value::Null)
        .expect("a plain map encodes");
    assert_eq!(router.history.entries.len(), depth);
    assert_eq!(router.history.location().query_str(), "page=2");
}

#[test]
fn unencodable_query_surfaces_the_error_and_changes_nothing() {
    let mut router = router_with_basename("");
    router.push("/before");
    let depth = router.history.entries.len();
    let events = router.events.len();
    // A bare string has no form-urlencoded representation.
    let query = serde_json::Value::String(String::from("rust"));
    let result = router.push_with_query("/search", &query);
    match result {
        Err(NavigationError::QueryEncoding(_)) => {},
        Ok(()) => panic!("an unencodable query must not succeed"),
    }
    // No location change was emitted: the stack, the active route, and the
    // event log are exactly as they were.
    assert_eq!(router.history.entries.len(), depth);
    assert_eq!(router.history.location().path(), "/before");
    assert_eq!(router.route, "/before");
    assert_eq!(router.events.len(), events);
}

#[test]
fn nested_query_values_are_also_rejected() {
    let mut router = router_with_basename("");
    let mut inner = serde_json::Map::new();
    inner.insert(String::from("a"), serde_json::Value::Bool(true));
    let mut outer = serde_json::Map::new();
    outer.insert(String::from("nested"), serde_json::Value::Object(inner));
    let query = serde_json::Value::Object(outer);
    assert!(router.push_with_query("/search", &query).is_err());
}

#[test]
fn base_router_normalizes_the_basename_and_dispatches_once() {
    let history = AnyHistory::new(
        RouterKind::Browser,
        Location::on_path(String::from("/app/home")),
    );
    let props = RouterProps {
        history,
        basename: String::from("/app/"),
        children: String::new(),
    };
    let (ctx, store) = BaseRouter(props);
    let router = ctx.router();
    assert_eq!(router.basename(), "/app");
    // The mounted router starts with the null query value.
    assert!(router.query.is_null());
    assert_eq!(router.kind(), RouterKind::Browser);
    assert_eq!(router.subscriptions.len(), 1);
    // The mount forces one location update.
    assert_eq!(store.context().revision(), 1);
    assert_eq!(store.context().location().path(), "/app/home");
}

#[test]
fn next_router_mounts_like_the_base_router() {
    let history = AnyHistory::new(
        RouterKind::Memory,
        Location::on_path(String::from("/")),
    );
    let props = RouterProps {
        history,
        basename: String::from(""),
        children: String::new(),
    };
    let (ctx, store) = NextRouter(props);
    assert_eq!(ctx.router().basename(), "");
    assert_eq!(store.context().revision(), 1);
}

#[test]
fn cloned_handles_share_one_state() {
    let mut router = router_with_basename("/app");
    router.push("/blog");
    let handle = router.clone();
    assert_eq!(handle.history.location().path(), "/app/blog");
    assert_eq!(handle.route, router.route);
    assert_eq!(handle.basename(), router.basename());
    assert_eq!(handle.query, router.query);
}
