use next_rs::history::{AnyHistory, RouterKind};
use next_rs::location::{Location, StateValue};

fn history() -> AnyHistory {
    AnyHistory::new(RouterKind::Memory, Location::on_path(String::from("/")))
}

#[test]
fn push_appends_and_moves_the_cursor() {
    let mut h = history();
    h.push(String::from("/a"));
    h.push(String::from("/b"));
    assert_eq!(h.location().path(), "/b");
    assert_eq!(h.entries.len(), 3);
    assert_eq!(h.index, 2);
}

#[test]
fn push_drops_the_forward_stack() {
    let mut h = history();
    h.push(String::from("/a"));
    h.push(String::from("/b"));
    h.go(-2);
    assert_eq!(h.location().path(), "/");
    h.push(String::from("/c"));
    assert_eq!(h.entries.len(), 2);
    assert_eq!(h.location().path(), "/c");
}

#[test]
fn replace_overwrites_in_place() {
    let mut h = history();
    h.push(String::from("/a"));
    h.replace(String::from("/b"));
    assert_eq!(h.entries.len(), 2);
    assert_eq!(h.location().path(), "/b");
    assert_eq!(h.index, 1);
}

#[test]
fn go_out_of_range_does_nothing() {
    let mut h = history();
    h.push(String::from("/a"));
    h.go(5);
    assert_eq!(h.location().path(), "/a");
    h.go(-5);
    assert_eq!(h.location().path(), "/a");
    h.go(-1);
    assert_eq!(h.location().path(), "/");
}

#[test]
fn push_with_state_carries_the_state() {
    let mut h = history();
    h.push_with_state(String::from("/a"), StateValue::Text(String::from("mark")));
    match h.location().state() {
        StateValue::Text(s) => assert_eq!(s, "mark"),
        _ => panic!("state was not carried"),
    }
}

#[test]
fn listen_and_unlisten_manage_handles() {
    let mut h = history();
    let a = h.listen();
    let b = h.listen();
    assert_ne!(a, b);
    assert_eq!(h.listeners.len(), 2);
    h.unlisten(a);
    assert_eq!(h.listeners, vec![b]);
    h.unlisten(a);
    assert_eq!(h.listeners, vec![b]);
}
