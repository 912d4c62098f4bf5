use next_rs::history::{AnyHistory, RouterKind};
use next_rs::link::{decide_navigation, link_navigate, link_target, NavAction};
use next_rs::location::{Location, StateValue};
use next_rs::router::Router;

fn router() -> Router {
    let history = AnyHistory::new(RouterKind::Memory, Location::on_path(String::from("/")));
    Router::new(
        history,
        String::new(),
        String::from("/"),
        String::new(),
        serde_json::Value::default(),
        String::new(),
    )
}

fn query_of(key: &str, value: &str) -> serde_json::Value {
    let mut map = serde_json::Map::new();
    map.insert(String::from(key), serde_json::Value::String(String::from(value)));
    serde_json::Value::Object(map)
}

#[test]
fn slash_hash_anchor_opens_in_the_same_tab_under_the_bare_anchor() {
    let (target, href) = link_target("/#about", "_blank");
    assert_eq!(target, "_self");
    assert_eq!(href, "#about");
}

#[test]
fn hash_anchor_opens_in_the_same_tab_as_it_is() {
    let (target, href) = link_target("#contact", "_blank");
    assert_eq!(target, "_self");
    assert_eq!(href, "#contact");
}

#[test]
fn other_links_keep_their_own_target() {
    let (target, href) = link_target("/about", "_blank");
    assert_eq!(target, "_blank");
    assert_eq!(href, "/about");
}

#[test]
fn plain_navigation_selects_only_the_plain_push() {
    assert_eq!(
        decide_navigation("", &serde_json::Value::Null, "_self"),
        NavAction::Push
    );
    assert_eq!(
        decide_navigation("", &serde_json::Value::Null, "_blank"),
        NavAction::Suppressed
    );
    assert_eq!(
        decide_navigation("mark", &serde_json::Value::Null, "_self"),
        NavAction::PushWithState
    );
    assert_eq!(
        decide_navigation("", &query_of("q", "rust"), "_self"),
        NavAction::PushWithQuery
    );
    assert_eq!(
        decide_navigation("mark", &query_of("q", "rust"), "_self"),
        NavAction::PushWithQueryAndState
    );
}

#[test]
fn plain_click_pushes_exactly_one_plain_entry() {
    let mut r = router();
    let depth = r.history.entries.len();
    let action = link_navigate(&mut r, "/about", "", &serde_json::Value::Null, "_self")
        .expect("a plain push cannot fail");
    assert_eq!(action, NavAction::Push);
    assert_eq!(r.history.entries.len(), depth + 1);
    let at = r.history.location();
    assert_eq!(at.path(), "/about");
    assert_eq!(at.query_str(), "");
    assert!(matches!(at.state(), StateValue::Empty));
}

#[test]
fn new_tab_click_is_suppressed() {
    let mut r = router();
    let depth = r.history.entries.len();
    let action = link_navigate(&mut r, "/about", "", &serde_json::Value::Null, "_blank")
        .expect("a suppressed click cannot fail");
    assert_eq!(action, NavAction::Suppressed);
    // The browser navigates by itself; no history entry is pushed.
    assert_eq!(r.history.entries.len(), depth);
}

#[test]
fn anchor_click_resolves_to_the_same_tab_and_pushes() {
    let mut r = router();
    // The link's own target is the new-tab default, but an in-page anchor
    // resolves to the same tab, so the push goes through.
    let action = link_navigate(&mut r, "#contact", "", &serde_json::Value::Null, "_blank")
        .expect("an anchor push cannot fail");
    assert_eq!(action, NavAction::Push);
    assert_eq!(r.history.location().path(), "#contact");
}

#[test]
fn stateful_click_uses_the_state_push() {
    let mut r = router();
    let action = link_navigate(&mut r, "/about", "mark", &serde_json::Value::Null, "_blank")
        .expect("a state push cannot fail");
    assert_eq!(action, NavAction::PushWithState);
    match r.history.location().state() {
        StateValue::Text(s) => assert_eq!(s, "mark"),
        _ => panic!("state was not carried"),
    }
}

#[test]
fn query_click_encodes_the_query() {
    let mut r = router();
    let action = link_navigate(&mut r, "/search", "", &query_of("q", "rust"), "_self")
        .expect("a plain map encodes");
    assert_eq!(action, NavAction::PushWithQuery);
    assert_eq!(r.history.location().query_str(), "q=rust");
}

#[test]
fn unencodable_query_click_fails_and_changes_nothing() {
    let mut r = router();
    let depth = r.history.entries.len();
    let result = link_navigate(
        &mut r,
        "/search",
        "",
        &serde_json::Value::Bool(true),
        "_self",
    );
    assert!(result.is_err());
    assert_eq!(r.history.entries.len(), depth);
    assert_eq!(r.route, "/");
}
