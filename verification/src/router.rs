//! The router facade: one history provider under a configured basename. Every
//! navigation operation prefixes its route with the basename and hands the
//! result to the history; the facade also tracks the active route, owns the
//! prefetch engine's records and subscribers, and emits the engine's
//! lifecycle events.

use vstd::prelude::*;
use vstd::string::*;

use crate::history::{stack_pushed, stack_replaced, went, AnyHistory, NavigationResult, RouterKind};
use crate::location::{Location, LocationContext, StateValue};
use crate::paths::{
    basename_normal, spec_prefix_basename, spec_strip_basename, str_eq, str_starts_with,
};
use crate::prefetch::{
    fetch_error_info, fetch_error_text, ComponentInfo, EventKind, FetchOutcome, FetchStatus,
    LifecycleEvent, RouteFetchState, RouteSubscriber,
};
use crate::query::query_encoding;
use crate::store::LocationStore;

verus! {

/// A router: the shared history provider, the basename, the active route, and
/// the prefetch engine's state.
pub struct Router {
    /// The history provider navigation goes through.
    pub history: AnyHistory,
    /// The path prefix the application is mounted under: empty, or not ending
    /// in `/`.
    pub basename: String,
    /// The route currently rendered, as the dispatcher sees it.
    pub route: String,
    /// The prefetch records, one per route being or having been fetched.
    pub fetches: Vec<RouteFetchState>,
    /// The lifecycle events emitted so far, oldest first.
    pub events: Vec<LifecycleEvent>,
    /// The pathname of the current route.
    pub pathname: String,
    /// The query value associated with the current route.
    pub query: serde_json::Value,
    /// The full path of the current route, basename included.
    pub as_path: String,
    /// The prefetch subscribers, in registration order.
    pub subscriptions: Vec<RouteSubscriber>,
    /// The next subscriber handle to hand out.
    pub next_subscriber: u64,
}

/// What every navigation operation that lands on `route` does to the facade's
/// own fields: the active route follows, the full path is the prefixed route,
/// and the prefetch state is untouched.
pub open spec fn navigated(pre: Router, post: Router, route: Seq<char>) -> bool {
    &&& post.route@ == route
    &&& post.pathname@ == route
    &&& post.as_path@ == spec_prefix_basename(pre.basename@, route)
    &&& post.basename == pre.basename
    &&& post.fetches@ == pre.fetches@
    &&& post.events@ == pre.events@
    &&& post.subscriptions@ == pre.subscriptions@
    &&& post.next_subscriber == pre.next_subscriber
    &&& post.query == pre.query
}

/// The info a settled fetch delivers to every subscriber: the loaded result
/// itself, or, for a failed load, an info with an empty payload and the
/// generic error text.
pub open spec fn delivered_info(outcome: FetchOutcome, x: ComponentInfo) -> bool {
    match outcome {
        FetchOutcome::Loaded(info) => x == info,
        FetchOutcome::LoadFailed => x.component@ == Seq::<char>::empty() && x.err@
            == fetch_error_text(),
    }
}

/// Whether a settled fetch emits a `route_change_error` event before the
/// `route_change_complete` one: it does for a failed load, and for a loaded
/// result that carries an error text.
pub open spec fn emits_error(outcome: FetchOutcome) -> bool {
    match outcome {
        FetchOutcome::Loaded(info) => info.err@.len() > 0,
        FetchOutcome::LoadFailed => true,
    }
}

/// The status a fetch record settles to.
pub open spec fn settled_status(outcome: FetchOutcome) -> FetchStatus {
    match outcome {
        FetchOutcome::Loaded(_) => FetchStatus::Done,
        FetchOutcome::LoadFailed => FetchStatus::Failed,
    }
}

/// What requesting a fetch of `route` does: it reports whether a new load
/// must be started — exactly when no fetch of `route` was in flight — leaves
/// a fetch of `route` in flight, and touches nothing else. When it attaches
/// to an in-flight fetch, nothing changes at all; when it starts one, it
/// creates or resets the one record for `route` and keeps every other record.
pub open spec fn fetch_requested(pre: Router, post: Router, route: Seq<char>, started: bool) -> bool {
    &&& started == !pre.pending(route)
    &&& post.pending(route)
    &&& !started ==> post == pre
    &&& started ==> {
        &&& post.history == pre.history
        &&& post.basename == pre.basename
        &&& post.route == pre.route
        &&& post.pathname == pre.pathname
        &&& post.as_path == pre.as_path
        &&& post.query == pre.query
        &&& post.events@ == pre.events@
        &&& post.subscriptions@ == pre.subscriptions@
        &&& post.next_subscriber == pre.next_subscriber
        &&& if pre.has_fetch(route) {
            exists|i: int|
                {
                    &&& 0 <= i < pre.fetches@.len()
                    &&& (#[trigger] pre.fetches@[i]).path@ == route
                    &&& post.fetches@ == pre.fetches@.update(i, post.fetches@[i])
                    &&& post.fetches@[i].path@ == route
                    &&& post.fetches@[i].status is Pending
                    &&& post.fetches@[i].result is None
                    &&& post.fetches@[i].error is None
                }
        } else {
            &&& post.fetches@.len() == pre.fetches@.len() + 1
            &&& post.fetches@.drop_last() == pre.fetches@
            &&& post.fetches@.last().path@ == route
            &&& post.fetches@.last().status is Pending
            &&& post.fetches@.last().result is None
            &&& post.fetches@.last().error is None
        }
    }
}

/// What a fetch of `route` settling does when the active route has moved on:
/// the record is discarded, and no subscriber is notified and no event fires.
pub open spec fn settled_stale(pre: Router, post: Router, route: Seq<char>) -> bool {
    &&& exists|i: int|
        0 <= i < pre.fetches@.len() && (#[trigger] pre.fetches@[i]).path@ == route
            && post.fetches@ == pre.fetches@.remove(i)
    &&& post.events@ == pre.events@
    &&& post.subscriptions@ == pre.subscriptions@
    &&& post.history == pre.history
    &&& post.basename == pre.basename
    &&& post.route == pre.route
    &&& post.pathname == pre.pathname
    &&& post.as_path == pre.as_path
    &&& post.query == pre.query
    &&& post.next_subscriber == pre.next_subscriber
}

/// What a fetch of the active route settling does: the one record for `route`
/// settles to its final status, every subscriber is handed the same one
/// delivered info, and the lifecycle events fire for the current full path —
/// `route_change_error` first where the outcome calls for it, then
/// `route_change_complete`.
pub open spec fn settled_active(
    pre: Router,
    post: Router,
    route: Seq<char>,
    outcome: FetchOutcome,
) -> bool {
    &&& exists|i: int|
        {
            &&& 0 <= i < pre.fetches@.len()
            &&& (#[trigger] pre.fetches@[i]).path@ == route
            &&& post.fetches@ == pre.fetches@.update(i, post.fetches@[i])
            &&& post.fetches@[i].path@ == route
            &&& post.fetches@[i].status == settled_status(outcome)
            &&& match outcome {
                FetchOutcome::Loaded(info) => post.fetches@[i].result == Some(info)
                    && post.fetches@[i].error is None,
                FetchOutcome::LoadFailed => post.fetches@[i].result is None && (
                post.fetches@[i].error matches Some(e) && e@ == fetch_error_text()),
            }
        }
    &&& post.subscriptions@.len() == pre.subscriptions@.len()
    &&& exists|x: ComponentInfo|
        #[trigger] delivered_info(outcome, x) && forall|k: int|
            0 <= k < pre.subscriptions@.len() ==> {
                &&& (#[trigger] post.subscriptions@[k]).token == pre.subscriptions@[k].token
                &&& post.subscriptions@[k].inbox@ == pre.subscriptions@[k].inbox@.push(x)
            }
    &&& post.events@.len() == pre.events@.len() + (if emits_error(outcome) {
        2int
    } else {
        1int
    })
    &&& post.events@.subrange(0, pre.events@.len() as int) == pre.events@
    &&& emits_error(outcome) ==> post.events@[pre.events@.len() as int].kind
        is RouteChangeError && post.events@[pre.events@.len() as int].path@ == pre.as_path@
    &&& post.events@.last().kind is RouteChangeComplete
    &&& post.events@.last().path@ == pre.as_path@
    &&& post.history == pre.history
    &&& post.basename == pre.basename
    &&& post.route == pre.route
    &&& post.pathname == pre.pathname
    &&& post.as_path == pre.as_path
    &&& post.query == pre.query
    &&& post.next_subscriber == pre.next_subscriber
}

/// The facade's own fields are untouched; only the history may have moved.
pub open spec fn facade_unchanged(pre: Router, post: Router) -> bool {
    &&& post.basename == pre.basename
    &&& post.route == pre.route
    &&& post.pathname == pre.pathname
    &&& post.as_path == pre.as_path
    &&& post.fetches@ == pre.fetches@
    &&& post.events@ == pre.events@
    &&& post.subscriptions@ == pre.subscriptions@
    &&& post.next_subscriber == pre.next_subscriber
    &&& post.query == pre.query
}

impl Router {
    /// The history is well-formed, the basename is in normal form, fetch
    /// records are keyed by pairwise distinct paths, and subscriber handles
    /// are pairwise distinct and below the next one to be handed out.
    pub open spec fn wf(&self) -> bool {
        &&& self.history.wf()
        &&& basename_normal(self.basename@)
        &&& forall|i: int, j: int|
            0 <= i < j < self.fetches@.len() ==> (#[trigger] self.fetches@[i]).path@ != (
            #[trigger] self.fetches@[j]).path@
        &&& forall|i: int|
            0 <= i < self.subscriptions@.len() ==> (#[trigger] self.subscriptions@[i]).token
                < self.next_subscriber
    }

    /// Whether a fetch record for `path` exists.
    pub open spec fn has_fetch(&self, path: Seq<char>) -> bool {
        exists|i: int|
            0 <= i < self.fetches@.len() && (#[trigger] self.fetches@[i]).path@ == path
    }

    /// Whether a fetch for `path` is in flight.
    pub open spec fn pending(&self, path: Seq<char>) -> bool {
        exists|i: int|
            0 <= i < self.fetches@.len() && (#[trigger] self.fetches@[i]).path@ == path
                && self.fetches@[i].status is Pending
    }

    /// A router over the given history and basename, with no fetch records,
    /// no subscribers, and no emitted events.
    pub fn new(
        history: AnyHistory,
        basename: String,
        route: String,
        pathname: String,
        query: serde_json::Value,
        as_path: String,
    ) -> (r: Router)
        requires
            history.wf(),
            basename_normal(basename@),
        ensures
            r.wf(),
            r.history == history,
            r.basename == basename,
            r.route == route,
            r.pathname == pathname,
            r.query == query,
            r.as_path == as_path,
            r.fetches@.len() == 0,
            r.events@.len() == 0,
            r.subscriptions@.len() == 0,
            r.next_subscriber == 0,
    {
        Router {
            history,
            basename,
            route,
            fetches: Vec::new(),
            events: Vec::new(),
            pathname,
            query,
            as_path,
            subscriptions: Vec::new(),
            next_subscriber: 0,
        }
    }

    /// Returns the basename of the router.
    pub fn basename(&self) -> (r: &String)
        ensures
            r == &self.basename,
    {
        &self.basename
    }

    /// Returns the kind of history provider the router runs on.
    pub fn kind(&self) -> (r: RouterKind)
        ensures
            r == self.history.kind,
    {
        self.history.kind
    }

    /// Navigates back by one entry.
    pub fn back(&mut self)
        requires
            old(self).wf(),
        ensures
            final(self).wf(),
            went(old(self).history, final(self).history, -1),
            facade_unchanged(*old(self), *final(self)),
    {
        self.go(-1);
    }

    /// Navigates forward by one entry.
    pub fn forward(&mut self)
        requires
            old(self).wf(),
        ensures
            final(self).wf(),
            went(old(self).history, final(self).history, 1),
            facade_unchanged(*old(self), *final(self)),
    {
        self.go(1);
    }

    /// Moves the history cursor by `delta` entries; a target outside the
    /// stack changes nothing.
    pub fn go(&mut self, delta: isize)
        requires
            old(self).wf(),
        ensures
            final(self).wf(),
            went(old(self).history, final(self).history, delta as int),
            facade_unchanged(*old(self), *final(self)),
    {
        self.history.go(delta);
    }

    /// Prefixes the basename to a route: with an empty basename the route
    /// itself; otherwise the concatenation, except that an empty route yields
    /// `/` alone.
    pub fn prefix_basename(&self, route_s: &str) -> (r: String)
        ensures
            r@ == spec_prefix_basename(self.basename@, route_s@),
    {
        if !self.basename.as_str().is_empty() {
            if route_s.is_empty() {
                let r = String::from_str("/");
                proof {
                    reveal_strlit("/");
                    assert(r@ =~= seq!['/']);
                }
                r
            } else {
                self.basename.clone().concat(route_s)
            }
        } else {
            route_s.to_owned()
        }
    }

    /// Strips a leading basename from a path. Where the remainder does not
    /// begin with `/`, the basename is reinstated as a leading segment: the
    /// result is `/` followed by the basename.
    pub fn strip_basename(&self, path: &str) -> (r: String)
        ensures
            r@ == spec_strip_basename(self.basename@, path@),
    {
        let base = self.basename.as_str();
        if base.is_empty() {
            return path.to_owned();
        }
        let base_len = base.unicode_len();
        let rest: &str = if str_starts_with(path, base) {
            let r = path.substring_char(base_len, path.unicode_len());
            proof {
                assert(r@ =~= path@.skip(base_len as int));
            }
            r
        } else {
            path
        };
        if !rest.is_empty() && rest.get_char(0) == '/' {
            rest.to_owned()
        } else {
            let r = String::from_str("/").concat(base);
            proof {
                reveal_strlit("/");
                assert("/"@ =~= seq!['/']);
            }
            r
        }
    }

    /// Pushes a route onto the history stack, prefixed with the basename; the
    /// active route follows.
    pub fn push(&mut self, route: &str)
        requires
            old(self).wf(),
        ensures
            final(self).wf(),
            stack_pushed(old(self).history, final(self).history),
            navigated(*old(self), *final(self), route@),
            final(self).history.current().path@ == spec_prefix_basename(
                old(self).basename@,
                route@,
            ),
            final(self).history.current().query@ == Seq::<char>::empty(),
            final(self).history.current().hash@ == Seq::<char>::empty(),
            final(self).history.current().state is Empty,
    {
        let prefixed = self.prefix_basename(route);
        self.as_path = prefixed.clone();
        self.history.push(prefixed);
        self.route = route.to_owned();
        self.pathname = route.to_owned();
    }

    /// Replaces the current history entry with a route, prefixed with the
    /// basename; the active route follows.
    pub fn replace(&mut self, route: &str)
        requires
            old(self).wf(),
        ensures
            final(self).wf(),
            stack_replaced(old(self).history, final(self).history),
            navigated(*old(self), *final(self), route@),
            final(self).history.current().path@ == spec_prefix_basename(
                old(self).basename@,
                route@,
            ),
            final(self).history.current().query@ == Seq::<char>::empty(),
            final(self).history.current().hash@ == Seq::<char>::empty(),
            final(self).history.current().state is Empty,
    {
        let prefixed = self.prefix_basename(route);
        self.as_path = prefixed.clone();
        self.history.replace(prefixed);
        self.route = route.to_owned();
        self.pathname = route.to_owned();
    }

    /// Pushes a route carrying a state string.
    pub fn push_with_state(&mut self, route: &str, state: &str)
        requires
            old(self).wf(),
        ensures
            final(self).wf(),
            stack_pushed(old(self).history, final(self).history),
            navigated(*old(self), *final(self), route@),
            final(self).history.current().path@ == spec_prefix_basename(
                old(self).basename@,
                route@,
            ),
            final(self).history.current().query@ == Seq::<char>::empty(),
            final(self).history.current().state matches StateValue::Text(s) && s@ == state@,
    {
        let prefixed = self.prefix_basename(route);
        self.as_path = prefixed.clone();
        self.history.push_with_state(prefixed, StateValue::Text(state.to_owned()));
        self.route = route.to_owned();
        self.pathname = route.to_owned();
    }

    /// Replaces the current history entry with a route carrying a state
    /// string.
    pub fn replace_with_state(&mut self, route: &str, state: &str)
        requires
            old(self).wf(),
        ensures
            final(self).wf(),
            stack_replaced(old(self).history, final(self).history),
            navigated(*old(self), *final(self), route@),
            final(self).history.current().path@ == spec_prefix_basename(
                old(self).basename@,
                route@,
            ),
            final(self).history.current().query@ == Seq::<char>::empty(),
            final(self).history.current().state matches StateValue::Text(s) && s@ == state@,
    {
        let prefixed = self.prefix_basename(route);
        self.as_path = prefixed.clone();
        self.history.replace_with_state(prefixed, StateValue::Text(state.to_owned()));
        self.route = route.to_owned();
        self.pathname = route.to_owned();
    }

    /// Pushes a route with a structured query value. Succeeds exactly when
    /// the history layer can encode the value; on failure the error reaches
    /// the caller and nothing — neither the stack nor the active route —
    /// changes.
    pub fn push_with_query(&mut self, route: &str, query: &serde_json::Value) -> (r:
        NavigationResult<()>)
        requires
            old(self).wf(),
        ensures
            final(self).wf(),
            r is Ok <==> query_encoding(*query) is Some,
            r is Ok ==> {
                &&& stack_pushed(old(self).history, final(self).history)
                &&& navigated(*old(self), *final(self), route@)
                &&& final(self).history.current().path@ == spec_prefix_basename(
                    old(self).basename@,
                    route@,
                )
                &&& Some(final(self).history.current().query@) == query_encoding(*query)
                &&& final(self).history.current().state is Empty
            },
            r is Err ==> *final(self) == *old(self),
    {
        let prefixed = self.prefix_basename(route);
        match self.history.push_with_query(prefixed, query) {
            Ok(()) => {
                self.as_path = self.prefix_basename(route);
                self.route = route.to_owned();
                self.pathname = route.to_owned();
                Ok(())
            },
            Err(e) => Err(e),
        }
    }

    /// Pushes a route with a structured query value and a state string, under
    /// the same success condition as a query-only push.
    pub fn push_with_query_and_state(
        &mut self,
        route: &str,
        query: &serde_json::Value,
        state: &str,
    ) -> (r: NavigationResult<()>)
        requires
            old(self).wf(),
        ensures
            final(self).wf(),
            r is Ok <==> query_encoding(*query) is Some,
            r is Ok ==> {
                &&& stack_pushed(old(self).history, final(self).history)
                &&& navigated(*old(self), *final(self), route@)
                &&& final(self).history.current().path@ == spec_prefix_basename(
                    old(self).basename@,
                    route@,
                )
                &&& Some(final(self).history.current().query@) == query_encoding(*query)
                &&& final(self).history.current().state matches StateValue::Text(s) && s@
                    == state@
            },
            r is Err ==> *final(self) == *old(self),
    {
        let prefixed = self.prefix_basename(route);
        match self.history.push_with_query_and_state(
            prefixed,
            query,
            StateValue::Text(state.to_owned()),
        ) {
            Ok(()) => {
                self.as_path = self.prefix_basename(route);
                self.route = route.to_owned();
                self.pathname = route.to_owned();
                Ok(())
            },
            Err(e) => Err(e),
        }
    }

    /// Replaces the current history entry with a route carrying a structured
    /// query value and a JSON state value, under the same success condition.
    pub fn replace_with_query_and_state(
        &mut self,
        route: &str,
        query: &serde_json::Value,
        state: serde_json::Value,
    ) -> (r: NavigationResult<()>)
        requires
            old(self).wf(),
        ensures
            final(self).wf(),
            r is Ok <==> query_encoding(*query) is Some,
            r is Ok ==> {
                &&& stack_replaced(old(self).history, final(self).history)
                &&& navigated(*old(self), *final(self), route@)
                &&& final(self).history.current().path@ == spec_prefix_basename(
                    old(self).basename@,
                    route@,
                )
                &&& Some(final(self).history.current().query@) == query_encoding(*query)
                &&& final(self).history.current().state == StateValue::Json(state)
            },
            r is Err ==> *final(self) == *old(self),
    {
        let prefixed = self.prefix_basename(route);
        match self.history.replace_with_query_and_state(
            prefixed,
            query,
            StateValue::Json(state),
        ) {
            Ok(()) => {
                self.as_path = self.prefix_basename(route);
                self.route = route.to_owned();
                self.pathname = route.to_owned();
                Ok(())
            },
            Err(e) => Err(e),
        }
    }
    /// Prefetches the route data for a target path: requests a fetch and
    /// reports whether a new underlying load must be started.
    pub fn prefetch(&mut self, url: &str) -> (started: bool)
        requires
            old(self).wf(),
        ensures
            final(self).wf(),
            fetch_requested(*old(self), *final(self), url@, started),
    {
        self.fetch_route(url)
    }

    /// Requests a fetch of route data for `route`. Returns whether a new
    /// underlying load must be started: it must exactly when no fetch of
    /// `route` is in flight — a second request while one is in flight attaches
    /// to it and changes nothing.
    pub fn fetch_route(&mut self, route: &str) -> (started: bool)
        requires
            old(self).wf(),
        ensures
            final(self).wf(),
            fetch_requested(*old(self), *final(self), route@, started),
    {
        let n = self.fetches.len();
        let mut i: usize = 0;
        while i < n
            invariant
                0 <= i <= n,
                n == self.fetches@.len(),
                *self == *old(self),
                old(self).wf(),
                forall|j: int| 0 <= j < i ==> (#[trigger] self.fetches@[j]).path@ != route@,
            decreases n - i,
        {
            if str_eq(self.fetches[i].path.as_str(), route) {
                if matches!(self.fetches[i].status, FetchStatus::Pending) {
                    return false;
                }
                proof {
                    assert(!old(self).pending(route@)) by {
                        if old(self).pending(route@) {
                            let j = choose|j: int|
                                0 <= j < old(self).fetches@.len() && (#[trigger] old(
                                    self,
                                ).fetches@[j]).path@ == route@ && old(self).fetches@[j].status
                                    is Pending;
                            assert(j == i);
                        }
                    }
                }
                self.fetches[i] = RouteFetchState {
                    path: route.to_owned(),
                    status: FetchStatus::Pending,
                    result: None,
                    error: None,
                };
                proof {
                    assert forall|a: int, b: int|
                        0 <= a < b < self.fetches@.len() implies (#[trigger] self.fetches@[a]).path@
                        != (#[trigger] self.fetches@[b]).path@ by {
                        assert(old(self).fetches@[a].path@ != old(self).fetches@[b].path@);
                    }
                }
                return true;
            }
            i += 1;
        }
        proof {
            assert(!old(self).has_fetch(route@));
        }
        self.fetches.push(
            RouteFetchState {
                path: route.to_owned(),
                status: FetchStatus::Pending,
                result: None,
                error: None,
            },
        );
        proof {
            assert(self.fetches@.drop_last() =~= old(self).fetches@);
            let last = self.fetches@.len() - 1;
            assert(self.fetches@[last].status is Pending);
            assert forall|a: int, b: int|
                0 <= a < b < self.fetches@.len() implies (#[trigger] self.fetches@[a]).path@ != (
            #[trigger] self.fetches@[b]).path@ by {
                if b < last {
                    assert(old(self).fetches@[a].path@ != old(self).fetches@[b].path@);
                } else {
                    assert(self.fetches@[a] == old(self).fetches@[a]);
                }
            }
        }
        true
    }

    /// Settles the in-flight fetch of `route` with the outcome of its load.
    /// For the active route, the record settles, every subscriber is handed
    /// the same one notification, and the lifecycle events fire — an error
    /// event first where the outcome carries an error, then the completion
    /// event. For a route that is no longer active, the record is discarded
    /// and nobody is notified, so a stale result never overwrites a newer
    /// view.
    pub fn settle_fetch(&mut self, route: &str, outcome: FetchOutcome)
        requires
            old(self).wf(),
            old(self).pending(route@),
        ensures
            final(self).wf(),
            old(self).route@ == route@ ==> settled_active(
                *old(self),
                *final(self),
                route@,
                outcome,
            ),
            old(self).route@ != route@ ==> settled_stale(*old(self), *final(self), route@),
    {
        let idx = self.find_fetch(route);
        let active = str_eq(self.route.as_str(), route);
        if !active {
            self.fetches.remove(idx);
            proof {
                old(self).fetches@.remove_ensures(idx as int);
                assert forall|a: int, b: int|
                    0 <= a < b < self.fetches@.len() implies (#[trigger] self.fetches@[a]).path@
                    != (#[trigger] self.fetches@[b]).path@ by {
                    let pa: int = if a < idx {
                        a
                    } else {
                        a + 1
                    };
                    let pb: int = if b < idx {
                        b
                    } else {
                        b + 1
                    };
                    assert(old(self).fetches@[pa].path@ != old(self).fetches@[pb].path@);
                }
            }
            return ;
        }
        match outcome {
            FetchOutcome::Loaded(info) => {
                if !info.err.as_str().is_empty() {
                    self.emit(EventKind::RouteChangeError);
                }
                self.fetches[idx] = RouteFetchState {
                    path: route.to_owned(),
                    status: FetchStatus::Done,
                    result: Some(info.clone()),
                    error: None,
                };
                self.notify(&info);
                self.emit(EventKind::RouteChangeComplete);
                proof {
                    self.lemma_update_keeps_unique_paths(*old(self), idx as int, route@);
                    assert(self.events@.subrange(0, old(self).events@.len() as int)
                        =~= old(self).events@);
                    assert(delivered_info(outcome, info));
                }
            },
            FetchOutcome::LoadFailed => {
                self.emit(EventKind::RouteChangeError);
                let info = fetch_error_info();
                self.fetches[idx] = RouteFetchState {
                    path: route.to_owned(),
                    status: FetchStatus::Failed,
                    result: None,
                    error: Some(String::from_str("Error fetching route")),
                };
                self.notify(&info);
                self.emit(EventKind::RouteChangeComplete);
                proof {
                    self.lemma_update_keeps_unique_paths(*old(self), idx as int, route@);
                    assert(self.events@.subrange(0, old(self).events@.len() as int)
                        =~= old(self).events@);
                    assert(delivered_info(outcome, info));
                }
            },
        }
    }

    /// All fetch paths stay pairwise distinct when the record at `idx`, whose
    /// path was `route`, is replaced by one whose path is `route` again.
    proof fn lemma_update_keeps_unique_paths(&self, pre: Router, idx: int, route: Seq<char>)
        requires
            pre.wf(),
            0 <= idx < pre.fetches@.len(),
            pre.fetches@[idx].path@ == route,
            self.fetches@.len() == pre.fetches@.len(),
            self.fetches@[idx].path@ == route,
            forall|j: int|
                0 <= j < pre.fetches@.len() && j != idx ==> #[trigger] self.fetches@[j]
                    == pre.fetches@[j],
        ensures
            forall|a: int, b: int|
                0 <= a < b < self.fetches@.len() ==> (#[trigger] self.fetches@[a]).path@ != (
                #[trigger] self.fetches@[b]).path@,
    {
        assert forall|a: int, b: int|
            0 <= a < b < self.fetches@.len() implies (#[trigger] self.fetches@[a]).path@ != (
        #[trigger] self.fetches@[b]).path@ by {
            assert(pre.fetches@[a].path@ != pre.fetches@[b].path@);
            assert(self.fetches@[a].path@ == pre.fetches@[a].path@);
            assert(self.fetches@[b].path@ == pre.fetches@[b].path@);
        }
    }

    /// Whether a fetch of `route` is in flight.
    pub fn is_fetching(&self, route: &str) -> (b: bool)
        requires
            self.wf(),
        ensures
            b == self.pending(route@),
    {
        let n = self.fetches.len();
        let mut i: usize = 0;
        while i < n
            invariant
                0 <= i <= n,
                n == self.fetches@.len(),
                self.wf(),
                forall|j: int| 0 <= j < i ==> (#[trigger] self.fetches@[j]).path@ != route@,
            decreases n - i,
        {
            if str_eq(self.fetches[i].path.as_str(), route) {
                if matches!(self.fetches[i].status, FetchStatus::Pending) {
                    return true;
                }
                proof {
                    assert(!self.pending(route@)) by {
                        if self.pending(route@) {
                            let j = choose|j: int|
                                0 <= j < self.fetches@.len() && (#[trigger] self.fetches@[j]).path@
                                    == route@ && self.fetches@[j].status is Pending;
                            assert(j == i);
                        }
                    }
                }
                return false;
            }
            i += 1;
        }
        false
    }

    /// The index of the fetch record for `route`.
    fn find_fetch(&self, route: &str) -> (idx: usize)
        requires
            self.has_fetch(route@),
        ensures
            idx < self.fetches@.len(),
            self.fetches@[idx as int].path@ == route@,
    {
        let n = self.fetches.len();
        let mut i: usize = 0;
        while i < n
            invariant
                0 <= i <= n,
                n == self.fetches@.len(),
                self.has_fetch(route@),
                forall|j: int| 0 <= j < i ==> (#[trigger] self.fetches@[j]).path@ != route@,
            decreases n - i,
        {
            if str_eq(self.fetches[i].path.as_str(), route) {
                return i;
            }
            i += 1;
        }
        proof {
            assert(false);
        }
        0
    }

    /// Appends one lifecycle event for the current full path.
    fn emit(&mut self, kind: EventKind)
        ensures
            final(self).events@.len() == old(self).events@.len() + 1,
            final(self).events@.drop_last() == old(self).events@,
            final(self).events@.last().kind == kind,
            final(self).events@.last().path@ == old(self).as_path@,
            final(self).history == old(self).history,
            final(self).basename == old(self).basename,
            final(self).route == old(self).route,
            final(self).pathname == old(self).pathname,
            final(self).as_path == old(self).as_path,
            final(self).query == old(self).query,
            final(self).fetches@ == old(self).fetches@,
            final(self).subscriptions@ == old(self).subscriptions@,
            final(self).next_subscriber == old(self).next_subscriber,
    {
        let path = self.as_path.clone();
        self.events.push(LifecycleEvent { kind, path });
        proof {
            assert(self.events@.drop_last() =~= old(self).events@);
        }
    }

    /// Hands one info to every subscriber, in registration order.
    fn notify(&mut self, data: &ComponentInfo)
        ensures
            final(self).subscriptions@.len() == old(self).subscriptions@.len(),
            forall|k: int|
                0 <= k < old(self).subscriptions@.len() ==> {
                    &&& (#[trigger] final(self).subscriptions@[k]).token == old(
                        self,
                    ).subscriptions@[k].token
                    &&& final(self).subscriptions@[k].inbox@ == old(
                        self,
                    ).subscriptions@[k].inbox@.push(*data)
                },
            final(self).history == old(self).history,
            final(self).basename == old(self).basename,
            final(self).route == old(self).route,
            final(self).pathname == old(self).pathname,
            final(self).as_path == old(self).as_path,
            final(self).query == old(self).query,
            final(self).fetches@ == old(self).fetches@,
            final(self).events@ == old(self).events@,
            final(self).next_subscriber == old(self).next_subscriber,
    {
        let n = self.subscriptions.len();
        let mut updated: Vec<RouteSubscriber> = Vec::new();
        let mut i: usize = 0;
        while i < n
            invariant
                0 <= i <= n,
                n == self.subscriptions@.len(),
                *self == *old(self),
                updated@.len() == i,
                forall|j: int|
                    0 <= j < i ==> {
                        &&& (#[trigger] updated@[j]).token == self.subscriptions@[j].token
                        &&& updated@[j].inbox@ == self.subscriptions@[j].inbox@.push(*data)
                    },
            decreases n - i,
        {
            let entry = &self.subscriptions[i];
            let mut inbox = crate::prefetch::clone_infos(&entry.inbox);
            inbox.push(data.clone());
            updated.push(RouteSubscriber { token: entry.token, inbox });
            i += 1;
        }
        self.subscriptions = updated;
    }

    /// Registers a prefetch subscriber and returns its handle. Registering
    /// twice creates two independent entries, each notified on every settled
    /// fetch of the active route.
    pub fn subscribe(&mut self) -> (token: u64)
        requires
            old(self).wf(),
            old(self).next_subscriber < u64::MAX,
        ensures
            final(self).wf(),
            token == old(self).next_subscriber,
            final(self).subscriptions@.len() == old(self).subscriptions@.len() + 1,
            final(self).subscriptions@.drop_last() == old(self).subscriptions@,
            final(self).subscriptions@.last().token == token,
            final(self).subscriptions@.last().inbox@ == Seq::<ComponentInfo>::empty(),
            final(self).next_subscriber == old(self).next_subscriber + 1,
            final(self).history == old(self).history,
            final(self).basename == old(self).basename,
            final(self).route == old(self).route,
            final(self).pathname == old(self).pathname,
            final(self).as_path == old(self).as_path,
            final(self).query == old(self).query,
            final(self).fetches@ == old(self).fetches@,
            final(self).events@ == old(self).events@,
    {
        let token = self.next_subscriber;
        self.subscriptions.push(RouteSubscriber { token, inbox: Vec::new() });
        self.next_subscriber = token + 1;
        token
    }

    /// Removes the subscriber under `token`, if one is registered; removing
    /// an unknown handle changes nothing, so unsubscribing twice is harmless.
    pub fn unsubscribe(&mut self, token: u64)
        requires
            old(self).wf(),
        ensures
            final(self).wf(),
            old(self).subscribed(token) ==> exists|i: int|
                0 <= i < old(self).subscriptions@.len() && (#[trigger] old(
                    self,
                ).subscriptions@[i]).token == token && final(self).subscriptions@ == old(
                    self,
                ).subscriptions@.remove(i),
            !old(self).subscribed(token) ==> final(self).subscriptions@ == old(
                self,
            ).subscriptions@,
            final(self).history == old(self).history,
            final(self).basename == old(self).basename,
            final(self).route == old(self).route,
            final(self).pathname == old(self).pathname,
            final(self).as_path == old(self).as_path,
            final(self).query == old(self).query,
            final(self).fetches@ == old(self).fetches@,
            final(self).events@ == old(self).events@,
            final(self).next_subscriber == old(self).next_subscriber,
    {
        let n = self.subscriptions.len();
        let mut i: usize = 0;
        while i < n
            invariant
                0 <= i <= n,
                n == self.subscriptions@.len(),
                *self == *old(self),
                old(self).wf(),
                forall|j: int| 0 <= j < i ==> (#[trigger] self.subscriptions@[j]).token != token,
            decreases n - i,
        {
            if self.subscriptions[i].token == token {
                self.subscriptions.remove(i);
                proof {
                    old(self).subscriptions@.remove_ensures(i as int);
                }
                return ;
            }
            i += 1;
        }
    }

    /// Whether a prefetch subscriber under `token` is registered.
    pub open spec fn subscribed(&self, token: u64) -> bool {
        exists|i: int|
            0 <= i < self.subscriptions@.len() && (#[trigger] self.subscriptions@[i]).token
                == token
    }
}

/// Two routers hold the same state: every field the contracts speak of
/// agrees. Cloned facade handles satisfy this, standing for one shared
/// router.
pub open spec fn router_equiv(a: Router, b: Router) -> bool {
    &&& a.history.kind == b.history.kind
    &&& a.history.entries@ == b.history.entries@
    &&& a.history.index == b.history.index
    &&& a.history.listeners@ == b.history.listeners@
    &&& a.history.next_listener == b.history.next_listener
    &&& a.basename == b.basename
    &&& a.route == b.route
    &&& a.fetches@ == b.fetches@
    &&& a.events@ == b.events@
    &&& a.pathname == b.pathname
    &&& a.query == b.query
    &&& a.as_path == b.as_path
    &&& a.subscriptions@.len() == b.subscriptions@.len()
    &&& forall|k: int|
        0 <= k < a.subscriptions@.len() ==> {
            &&& (#[trigger] a.subscriptions@[k]).token == b.subscriptions@[k].token
            &&& a.subscriptions@[k].inbox@ == b.subscriptions@[k].inbox@
        }
    &&& a.next_subscriber == b.next_subscriber
}

impl Clone for Router {
    fn clone(&self) -> (r: Self)
        ensures
            router_equiv(r, *self),
            self.wf() ==> r.wf(),
    {
        Router {
            history: self.history.clone(),
            basename: self.basename.clone(),
            route: self.route.clone(),
            fetches: clone_fetches(&self.fetches),
            events: clone_events(&self.events),
            pathname: self.pathname.clone(),
            query: self.query.clone(),
            as_path: self.as_path.clone(),
            subscriptions: clone_subscribers(&self.subscriptions),
            next_subscriber: self.next_subscriber,
        }
    }
}

/// A copy of the fetch records, entry for entry.
fn clone_fetches(v: &Vec<RouteFetchState>) -> (r: Vec<RouteFetchState>)
    ensures
        r@ == v@,
{
    let mut r: Vec<RouteFetchState> = Vec::new();
    let mut i: usize = 0;
    let n = v.len();
    while i < n
        invariant
            0 <= i <= n,
            n == v@.len(),
            r@.len() == i,
            forall|j: int| 0 <= j < i ==> r@[j] == v@[j],
        decreases n - i,
    {
        r.push(v[i].clone());
        i += 1;
    }
    assert(r@ =~= v@);
    r
}

/// A copy of the event log, entry for entry.
fn clone_events(v: &Vec<LifecycleEvent>) -> (r: Vec<LifecycleEvent>)
    ensures
        r@ == v@,
{
    let mut r: Vec<LifecycleEvent> = Vec::new();
    let mut i: usize = 0;
    let n = v.len();
    while i < n
        invariant
            0 <= i <= n,
            n == v@.len(),
            r@.len() == i,
            forall|j: int| 0 <= j < i ==> r@[j] == v@[j],
        decreases n - i,
    {
        r.push(v[i].clone());
        i += 1;
    }
    assert(r@ =~= v@);
    r
}

/// A copy of the subscriber registry, handle for handle.
fn clone_subscribers(v: &Vec<RouteSubscriber>) -> (r: Vec<RouteSubscriber>)
    ensures
        r@.len() == v@.len(),
        forall|k: int|
            0 <= k < v@.len() ==> {
                &&& (#[trigger] r@[k]).token == v@[k].token
                &&& r@[k].inbox@ == v@[k].inbox@
            },
{
    let mut r: Vec<RouteSubscriber> = Vec::new();
    let mut i: usize = 0;
    let n = v.len();
    while i < n
        invariant
            0 <= i <= n,
            n == v@.len(),
            r@.len() == i,
            forall|k: int|
                0 <= k < i ==> {
                    &&& (#[trigger] r@[k]).token == v@[k].token
                    &&& r@[k].inbox@ == v@[k].inbox@
                },
        decreases n - i,
    {
        r.push(v[i].clone());
        i += 1;
    }
    r
}

/// The context a provider hands down the rendering tree: the shared router.
pub struct RouterContext {
    pub router: Router,
}

impl RouterContext {
    /// Returns the current router instance.
    pub fn router(&self) -> (r: Router)
        ensures
            router_equiv(r, self.router),
            self.router.wf() ==> r.wf(),
    {
        self.router.clone()
    }
}

impl Clone for RouterContext {
    fn clone(&self) -> (r: Self)
        ensures
            router_equiv(r.router, self.router),
            self.router.wf() ==> r.router.wf(),
    {
        RouterContext { router: self.router.clone() }
    }
}

/// What a router provider is mounted from: the history to run on, the
/// basename to mount under, and the children markup it wraps.
pub struct RouterProps {
    /// The history instance for navigation.
    pub history: AnyHistory,
    /// The base URL for the router.
    pub basename: String,
    /// Children markup to be rendered.
    pub children: String,
}

/// The basename with every trailing `/` removed: the normal form the router
/// keeps.
pub open spec fn spec_normalize_basename(b: Seq<char>) -> Seq<char>
    decreases b.len(),
{
    if b.len() > 0 && b[b.len() - 1] == '/' {
        spec_normalize_basename(b.drop_last())
    } else {
        b
    }
}

/// Normalization reaches the normal form.
pub proof fn lemma_normalize_normal(b: Seq<char>)
    ensures
        basename_normal(spec_normalize_basename(b)),
    decreases b.len(),
{
    if b.len() > 0 && b[b.len() - 1] == '/' {
        lemma_normalize_normal(b.drop_last());
    }
}

/// The basename in normal form: every trailing `/` removed.
fn normalize_basename(basename: &str) -> (r: String)
    ensures
        r@ == spec_normalize_basename(basename@),
        basename_normal(r@),
{
    let mut end = basename.unicode_len();
    proof {
        assert(basename@.subrange(0, basename@.len() as int) =~= basename@);
    }
    while end > 0 && basename.get_char(end - 1) == '/'
        invariant
            0 <= end <= basename@.len(),
            spec_normalize_basename(basename@) == spec_normalize_basename(
                basename@.subrange(0, end as int),
            ),
        decreases end,
    {
        proof {
            let cur = basename@.subrange(0, end as int);
            assert(cur.drop_last() =~= basename@.subrange(0, end - 1));
        }
        end = end - 1;
    }
    proof {
        let cur = basename@.subrange(0, end as int);
        assert(spec_normalize_basename(cur) == cur);
        lemma_normalize_normal(basename@);
    }
    let r = basename.substring_char(0, end);
    r.to_owned()
}

/// What mounting a router provider yields: a router over the given history
/// under the normalized basename, with the default route, one registered
/// subscriber (the provider's own render hook), and a location store that has
/// already observed the mount as its first dispatch.
pub open spec fn mounted(props: RouterProps, r: Router, store: LocationStore) -> bool {
    &&& r.history == props.history
    &&& r.basename@ == spec_normalize_basename(props.basename@)
    &&& r.route@ == "/"@
    &&& r.pathname@ == Seq::<char>::empty()
    &&& r.as_path@ == Seq::<char>::empty()
    &&& crate::query::value_is_null(r.query)
    &&& r.fetches@.len() == 0
    &&& r.events@.len() == 0
    &&& r.subscriptions@.len() == 1
    &&& r.subscriptions@[0].inbox@.len() == 0
    &&& r.next_subscriber == 1
    &&& store.context.revision == 1
    &&& store.context.location == props.history.current()
    &&& store.subscribers@.len() == 0
}

/// The base router provider: normalizes the basename, builds the shared
/// router with one registered subscriber, and dispatches the history's
/// current location into a fresh location store so the first render observes
/// it.
#[allow(non_snake_case)]
pub fn BaseRouter(props: RouterProps) -> (r: (RouterContext, LocationStore))
    requires
        props.history.wf(),
    ensures
        r.0.router.wf(),
        r.1.wf(),
        mounted(props, r.0.router, r.1),
{
    let initial = props.history.location();
    let basename = normalize_basename(props.basename.as_str());
    let route = String::from_str("/");
    let query = serde_json::Value::default();
    let mut router = Router::new(
        props.history,
        basename,
        route,
        String::new(),
        query,
        String::new(),
    );
    let _render_hook = router.subscribe();
    let mut store = LocationStore::new(initial.clone());
    store.dispatch(initial);
    (RouterContext { router }, store)
}

/// The router provider: provides location and navigation context to its
/// children and switches; one per application. It mounts exactly as the base
/// provider does.
#[allow(non_snake_case)]
pub fn NextRouter(props: RouterProps) -> (r: (RouterContext, LocationStore))
    requires
        props.history.wf(),
    ensures
        r.0.router.wf(),
        r.1.wf(),
        mounted(props, r.0.router, r.1),
{
    BaseRouter(props)
}

/// The router of the surrounding provider context. The context must be
/// present: calling this outside a provider is a wiring mistake, not a
/// runtime condition.
pub fn use_router(ctx: Option<&RouterContext>) -> (r: Router)
    requires
        ctx is Some,
    ensures
        router_equiv(r, ctx.unwrap().router),
        ctx.unwrap().router.wf() ==> r.wf(),
{
    ctx.unwrap().router()
}

/// The current location of the surrounding provider context, where one is
/// present.
pub fn use_location(ctx: Option<&LocationContext>) -> (r: Option<Location>)
    ensures
        ctx is Some ==> r == Some(ctx.unwrap().location),
        ctx is None ==> r is None,
{
    match ctx {
        Some(c) => Some(c.location()),
        None => None,
    }
}

/// The current route path with the basename stripped: what the dispatcher
/// renders. Both contexts must be present.
pub fn use_route(
    router_ctx: Option<&RouterContext>,
    location_ctx: Option<&LocationContext>,
) -> (r: String)
    requires
        router_ctx is Some,
        location_ctx is Some,
    ensures
        r@ == spec_strip_basename(
            router_ctx.unwrap().router.basename@,
            location_ctx.unwrap().location.path@,
        ),
{
    let router = use_router(router_ctx);
    let location = use_location(location_ctx).unwrap();
    router.strip_basename(location.path.as_str())
}

/// Two requests to fetch the same route before the first settles coalesce:
/// the first starts the one underlying load, the second attaches to it
/// without starting another or changing anything, and when the load settles
/// for the active route, every subscriber receives the same one notification.
pub proof fn lemma_fetch_coalesces(
    r0: Router,
    r1: Router,
    r2: Router,
    r3: Router,
    route: Seq<char>,
    s1: bool,
    s2: bool,
    outcome: FetchOutcome,
)
    requires
        !r0.pending(route),
        fetch_requested(r0, r1, route, s1),
        fetch_requested(r1, r2, route, s2),
        r2.route@ == route,
        settled_active(r2, r3, route, outcome),
    ensures
        s1,
        !s2,
        r2 == r1,
        exists|x: ComponentInfo|
            #[trigger] delivered_info(outcome, x) && forall|k: int|
                0 <= k < r2.subscriptions@.len() ==> (#[trigger] r3.subscriptions@[k]).inbox@
                    == r2.subscriptions@[k].inbox@.push(x),
{
}

/// A fetch that settles after the active route has moved on is discarded
/// whole: no subscriber is notified and no lifecycle event fires.
pub proof fn lemma_stale_fetch_discarded(
    pre: Router,
    post: Router,
    route: Seq<char>,
)
    requires
        pre.wf(),
        pre.route@ != route,
        settled_stale(pre, post, route),
    ensures
        post.subscriptions@ == pre.subscriptions@,
        post.events@ == pre.events@,
        !post.has_fetch(route),
{
    let i = choose|i: int|
        0 <= i < pre.fetches@.len() && (#[trigger] pre.fetches@[i]).path@ == route
            && post.fetches@ == pre.fetches@.remove(i);
    pre.fetches@.remove_ensures(i);
    if post.has_fetch(route) {
        let j = choose|j: int|
            0 <= j < post.fetches@.len() && (#[trigger] post.fetches@[j]).path@ == route;
        if j < i {
            assert(post.fetches@[j] == pre.fetches@[j]);
        } else {
            assert(post.fetches@[j] == pre.fetches@[j + 1]);
        }
    }
}

} // verus!
