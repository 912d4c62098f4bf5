//! The navigation policy of a link: how a click turns into exactly one of the
//! router's push variants. Given the link's state and query, a plain push is
//! chosen when both are absent, the state-only push when only state is
//! present, the query-only push when only the query is present, and the
//! combined push when both are — and a plain push into an external, new-tab
//! target is suppressed outright, since the browser will navigate by itself
//! and a second history entry would double the push.

use vstd::prelude::*;
use vstd::string::*;

use crate::history::{stack_pushed, NavigationResult};
use crate::location::StateValue;
use crate::paths::{spec_prefix_basename, starts_with, str_eq, str_starts_with};
use crate::query::{query_encoding, value_is_null};
use crate::router::{navigated, Router};

verus! {

/// Which navigation a link click performs.
#[derive(Debug, PartialEq, Eq, Clone, Copy, Structural)]
pub enum NavAction {
    /// No history mutation: the browser itself will navigate the external,
    /// new-tab target.
    Suppressed,
    Push,
    PushWithState,
    PushWithQuery,
    PushWithQueryAndState,
}

/// The target a link resolves to: an in-page anchor (a leading `#`, or `/#`)
/// opens in the same tab, anything else keeps the link's own target.
pub open spec fn spec_resolved_target(to: Seq<char>, target: Seq<char>) -> Seq<char> {
    if starts_with(to, "/#"@) || starts_with(to, "#"@) {
        "_self"@
    } else {
        target
    }
}

/// Resolves a link's target and href: `/#`-anchors open in the same tab under
/// the bare anchor, `#`-anchors open in the same tab as they are, and
/// anything else keeps the link's own target and href.
pub fn link_target(to: &str, target: &str) -> (r: (String, String))
    ensures
        r.0@ == spec_resolved_target(to@, target@),
        starts_with(to@, "/#"@) ==> r.1@ == to@.skip(1),
        !starts_with(to@, "/#"@) ==> r.1@ == to@,
{
    if str_starts_with(to, "/#") {
        proof {
            reveal_strlit("/#");
        }
        let href = to.substring_char(1, to.unicode_len());
        proof {
            assert(href@ =~= to@.skip(1));
        }
        (String::from_str("_self"), href.to_owned())
    } else if str_starts_with(to, "#") {
        (String::from_str("_self"), to.to_owned())
    } else {
        (target.to_owned(), to.to_owned())
    }
}

/// Selects exactly one of the four push variants from the link's state and
/// query — or suppresses the plain push when the resolved target is an
/// external new tab.
pub fn decide_navigation(state: &str, query: &serde_json::Value, target: &str) -> (a: NavAction)
    ensures
        a is Suppressed <==> state@.len() == 0 && value_is_null(*query) && target@ == "_blank"@,
        a is Push <==> state@.len() == 0 && value_is_null(*query) && target@ != "_blank"@,
        a is PushWithState <==> state@.len() > 0 && value_is_null(*query),
        a is PushWithQuery <==> state@.len() == 0 && !value_is_null(*query),
        a is PushWithQueryAndState <==> state@.len() > 0 && !value_is_null(*query),
{
    let null = query.is_null();
    if state.is_empty() && null {
        if str_eq(target, "_blank") {
            NavAction::Suppressed
        } else {
            NavAction::Push
        }
    } else if null {
        NavAction::PushWithState
    } else if state.is_empty() {
        NavAction::PushWithQuery
    } else {
        NavAction::PushWithQueryAndState
    }
}

/// Performs a link click against the router: resolves the target, selects the
/// one push variant the state and query call for, and carries a query
/// encoding failure back to the caller with the router untouched.
pub fn link_navigate(
    router: &mut Router,
    to: &str,
    state: &str,
    query: &serde_json::Value,
    target: &str,
) -> (r: NavigationResult<NavAction>)
    requires
        old(router).wf(),
    ensures
        final(router).wf(),
        state@.len() == 0 && value_is_null(*query) && spec_resolved_target(to@, target@)
            == "_blank"@ ==> r == Ok::<NavAction, crate::history::NavigationError>(
            NavAction::Suppressed,
        ) && *final(router) == *old(router),
        state@.len() == 0 && value_is_null(*query) && spec_resolved_target(to@, target@)
            != "_blank"@ ==> {
            &&& r == Ok::<NavAction, crate::history::NavigationError>(NavAction::Push)
            &&& stack_pushed(old(router).history, final(router).history)
            &&& navigated(*old(router), *final(router), to@)
            &&& final(router).history.current().path@ == spec_prefix_basename(
                old(router).basename@,
                to@,
            )
            &&& final(router).history.current().query@ == Seq::<char>::empty()
            &&& final(router).history.current().state is Empty
        },
        state@.len() > 0 && value_is_null(*query) ==> {
            &&& r == Ok::<NavAction, crate::history::NavigationError>(NavAction::PushWithState)
            &&& stack_pushed(old(router).history, final(router).history)
            &&& navigated(*old(router), *final(router), to@)
            &&& final(router).history.current().query@ == Seq::<char>::empty()
            &&& final(router).history.current().state matches StateValue::Text(s) && s@ == state@
        },
        state@.len() == 0 && !value_is_null(*query) ==> {
            &&& (r matches Ok(a) ==> a == NavAction::PushWithQuery)
            &&& (r is Ok <==> query_encoding(*query) is Some)
            &&& r is Ok ==> {
                &&& stack_pushed(old(router).history, final(router).history)
                &&& navigated(*old(router), *final(router), to@)
                &&& Some(final(router).history.current().query@) == query_encoding(*query)
                &&& final(router).history.current().state is Empty
            }
            &&& r is Err ==> *final(router) == *old(router)
        },
        state@.len() > 0 && !value_is_null(*query) ==> {
            &&& (r matches Ok(a) ==> a == NavAction::PushWithQueryAndState)
            &&& (r is Ok <==> query_encoding(*query) is Some)
            &&& r is Ok ==> {
                &&& stack_pushed(old(router).history, final(router).history)
                &&& navigated(*old(router), *final(router), to@)
                &&& Some(final(router).history.current().query@) == query_encoding(*query)
                &&& final(router).history.current().state matches StateValue::Text(s) && s@
                    == state@
            }
            &&& r is Err ==> *final(router) == *old(router)
        },
{
    let (resolved, _href) = link_target(to, target);
    let action = decide_navigation(state, query, resolved.as_str());
    match action {
        NavAction::Suppressed => Ok(NavAction::Suppressed),
        NavAction::Push => {
            router.push(to);
            Ok(NavAction::Push)
        },
        NavAction::PushWithState => {
            router.push_with_state(to, state);
            Ok(NavAction::PushWithState)
        },
        NavAction::PushWithQuery => {
            match router.push_with_query(to, query) {
                Ok(()) => Ok(NavAction::PushWithQuery),
                Err(e) => Err(e),
            }
        },
        NavAction::PushWithQueryAndState => {
            match router.push_with_query_and_state(to, query, state) {
                Ok(()) => Ok(NavAction::PushWithQueryAndState),
                Err(e) => Err(e),
            }
        },
    }
}

} // verus!
