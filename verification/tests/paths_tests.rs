use next_rs::history::{AnyHistory, RouterKind};
use next_rs::location::Location;
use next_rs::router::Router;

fn router_with_basename(basename: &str) -> Router {
    let history = AnyHistory::new(
        RouterKind::Memory,
        Location::on_path(String::from("/")),
    );
    Router::new(
        history,
        String::from(basename),
        String::from("/"),
        String::new(),
        serde_json::Value::default(),
        String::new(),
    )
}

#[test]
fn prefix_empty_path_under_basename_yields_root() {
    let router = router_with_basename("/app");
    assert_eq!(router.prefix_basename(""), "/");
}

#[test]
fn prefix_concatenates_under_basename() {
    let router = router_with_basename("/app");
    assert_eq!(router.prefix_basename("/about"), "/app/about");
}

#[test]
fn prefix_is_identity_under_empty_basename() {
    let router = router_with_basename("");
    assert_eq!(router.prefix_basename("/about"), "/about");
    assert_eq!(router.prefix_basename(""), "");
}

#[test]
fn strip_removes_leading_basename() {
    let router = router_with_basename("/app");
    assert_eq!(router.strip_basename("/app/about"), "/about");
}

#[test]
fn strip_reinstates_basename_on_malformed_remainder() {
    // The remainder "xyz" does not start with `/`, so the basename comes back
    // as a leading segment.
    let router = router_with_basename("/app");
    assert_eq!(router.strip_basename("/appxyz"), "//app");
}

#[test]
fn strip_reinstates_basename_on_empty_remainder() {
    let router = router_with_basename("/app");
    assert_eq!(router.strip_basename("/app"), "//app");
}

#[test]
fn strip_keeps_unrelated_path() {
    let router = router_with_basename("/app");
    assert_eq!(router.strip_basename("/other"), "/other");
}

#[test]
fn strip_is_identity_under_empty_basename() {
    let router = router_with_basename("");
    assert_eq!(router.strip_basename("#contact"), "#contact");
}

#[test]
fn prefix_after_strip_is_idempotent_on_prefixed_paths() {
    let router = router_with_basename("/app");
    for p in ["/app/about", "/app", "/appxyz", "/app/"] {
        let once = router.prefix_basename(&router.strip_basename(p));
        let twice = router.prefix_basename(&router.strip_basename(&once));
        assert_eq!(twice, once);
    }
}
