use next_rs::location::{Location, LocationContext, StateValue};
use next_rs::store::LocationStore;

fn loc(path: &str) -> Location {
    Location::on_path(String::from(path))
}

#[test]
fn dispatch_bumps_revision_every_time() {
    let mut store = LocationStore::new(loc("/"));
    assert_eq!(store.context().revision(), 0);
    store.dispatch(loc("/a"));
    assert_eq!(store.context().revision(), 1);
    // Re-dispatching the same path still bumps the revision.
    store.dispatch(loc("/a"));
    assert_eq!(store.context().revision(), 2);
    assert_eq!(store.context().location().path(), "/a");
}

#[test]
fn every_subscriber_is_notified_once_per_dispatch() {
    let mut store = LocationStore::new(loc("/"));
    let first = store.subscribe();
    let second = store.subscribe();
    assert_ne!(first, second);
    store.dispatch(loc("/a"));
    store.dispatch(loc("/b"));
    store.dispatch(loc("/c"));
    for sub in &store.subscribers {
        assert_eq!(sub.inbox.len(), 3);
        assert_eq!(sub.inbox[0].location.path, "/a");
        assert_eq!(sub.inbox[2].location.path, "/c");
        assert_eq!(sub.inbox[0].revision, 1);
        assert_eq!(sub.inbox[2].revision, 3);
    }
}

#[test]
fn subscribing_twice_notifies_twice() {
    let mut store = LocationStore::new(loc("/"));
    let a = store.subscribe();
    let b = store.subscribe();
    assert_ne!(a, b);
    assert_eq!(store.subscribers.len(), 2);
    store.dispatch(loc("/x"));
    let delivered: usize = store.subscribers.iter().map(|s| s.inbox.len()).sum();
    assert_eq!(delivered, 2);
}

#[test]
fn unsubscribe_removes_exactly_the_matching_handle_and_is_idempotent() {
    let mut store = LocationStore::new(loc("/"));
    let a = store.subscribe();
    let b = store.subscribe();
    store.unsubscribe(a);
    assert_eq!(store.subscribers.len(), 1);
    assert_eq!(store.subscribers[0].token, b);
    store.unsubscribe(a);
    assert_eq!(store.subscribers.len(), 1);
    store.dispatch(loc("/y"));
    assert_eq!(store.subscribers[0].inbox.len(), 1);
}

#[test]
fn context_equality_is_revision_equality() {
    let with_state = Location {
        path: String::from("/a"),
        query: String::new(),
        hash: String::new(),
        state: StateValue::Text(String::from("s")),
    };
    let a = LocationContext::initial(loc("/a"));
    let b = LocationContext::initial(with_state);
    // Different locations, same revision: equal for change detection.
    assert!(a == b);
    let c = b.reduce(loc("/a"));
    // Same location, new revision: not equal, so the change is observed.
    assert!(a != c);
}
