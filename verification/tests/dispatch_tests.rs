use next_rs::dispatch::{Switch, SwitchProps};
use next_rs::history::{AnyHistory, RouterKind};
use next_rs::link::{link_navigate, NavAction};
use next_rs::location::Location;
use next_rs::router::{use_location, use_route, use_router, BaseRouter, RouterProps};

fn echo(route: String) -> String {
    let mut markup = String::from("<page at=\"");
    markup.push_str(&route);
    markup.push_str("\"/>");
    markup
}

#[test]
fn switch_renders_the_current_route() {
    let props = SwitchProps { pathname: String::new() };
    let rendered = Switch(&props, "/blog", echo);
    assert_eq!(rendered, "<page at=\"/blog\"/>");
}

#[test]
fn switch_falls_back_to_the_configured_pathname() {
    let props = SwitchProps { pathname: String::from("/home") };
    let rendered = Switch(&props, "", echo);
    assert_eq!(rendered, "<page at=\"/home\"/>");
}

#[test]
fn switch_renders_nothing_when_route_and_fallback_are_empty() {
    let props = SwitchProps { pathname: String::new() };
    let rendered = Switch(&props, "", echo);
    assert_eq!(rendered, "");
}

#[test]
fn anchor_navigation_reaches_the_dispatcher_unstripped() {
    // An application mounted without a basename navigates to an in-page
    // anchor: the dispatcher receives exactly the anchor string.
    let history = AnyHistory::new(RouterKind::Memory, Location::on_path(String::from("/")));
    let props = RouterProps {
        history,
        basename: String::new(),
        children: String::new(),
    };
    let (ctx, mut store) = BaseRouter(props);
    let mut router = use_router(Some(&ctx));
    let action = link_navigate(&mut router, "#contact", "", &serde_json::Value::Null, "_blank")
        .expect("an anchor push cannot fail");
    assert_eq!(action, NavAction::Push);
    // The history event is republished to the store, as the provider's
    // listener does on every change.
    store.dispatch(router.history.location());
    let context = store.context();
    assert_eq!(
        use_location(Some(&context)).expect("a location is present").path(),
        "#contact"
    );
    let route = use_route(Some(&ctx), Some(&context));
    assert_eq!(route, "#contact");
    let rendered = Switch(&SwitchProps { pathname: String::new() }, route.as_str(), echo);
    assert_eq!(rendered, "<page at=\"#contact\"/>");
}

#[test]
fn use_route_strips_the_basename() {
    let history = AnyHistory::new(
        RouterKind::Memory,
        Location::on_path(String::from("/app/blog")),
    );
    let props = RouterProps {
        history,
        basename: String::from("/app"),
        children: String::new(),
    };
    let (ctx, store) = BaseRouter(props);
    let context = store.context();
    assert_eq!(use_route(Some(&ctx), Some(&context)), "/blog");
}

#[test]
fn use_location_is_none_outside_a_provider() {
    assert!(use_location(None).is_none());
}
