//! The data the prefetch engine works over: the result handed to subscribers,
//! the per-route fetch record and its lifecycle, the outcome an asynchronous
//! load settles with, and the lifecycle events the engine emits.

use vstd::prelude::*;
use vstd::string::*;

verus! {

/// What a settled prefetch hands to a subscriber: a renderable payload and an
/// error text, empty on success.
pub struct ComponentInfo {
    pub component: String,
    pub err: String,
}

impl Clone for ComponentInfo {
    fn clone(&self) -> (r: Self)
        ensures
            r == *self,
    {
        ComponentInfo { component: self.component.clone(), err: self.err.clone() }
    }
}

impl PartialEq for ComponentInfo {
    fn eq(&self, other: &Self) -> (r: bool) {
        self.component == other.component && self.err == other.err
    }
}

impl vstd::std_specs::cmp::PartialEqSpecImpl for ComponentInfo {
    open spec fn obeys_eq_spec() -> bool {
        true
    }

    open spec fn eq_spec(&self, other: &ComponentInfo) -> bool {
        self.component@ == other.component@ && self.err@ == other.err@
    }
}

/// Where a fetch record stands in its lifecycle.
#[derive(Debug, PartialEq, Eq, Clone, Copy, Structural)]
pub enum FetchStatus {
    Pending,
    Done,
    Failed,
}

/// One fetch record, keyed by its route path: created when a fetch is
/// initiated for a path not already pending, settled to done or failed when
/// the load returns, and discarded unsettled when the active route has moved
/// on in the meantime.
pub struct RouteFetchState {
    pub path: String,
    pub status: FetchStatus,
    pub result: Option<ComponentInfo>,
    pub error: Option<String>,
}

impl Clone for RouteFetchState {
    fn clone(&self) -> (r: Self)
        ensures
            r == *self,
    {
        RouteFetchState {
            path: self.path.clone(),
            status: self.status,
            result: match &self.result {
                Some(info) => Some(info.clone()),
                None => None,
            },
            error: match &self.error {
                Some(e) => Some(e.clone()),
                None => None,
            },
        }
    }
}

/// How an asynchronous route load settled: with a result, or not at all — a
/// transport failure and a malformed response are not told apart.
pub enum FetchOutcome {
    Loaded(ComponentInfo),
    LoadFailed,
}

/// The generic error text delivered when a load fails: the engine never hands
/// raw transport errors to subscribers.
pub open spec fn fetch_error_text() -> Seq<char> {
    "Error fetching route"@
}

/// The error-carrying info delivered for a failed load.
pub fn fetch_error_info() -> (r: ComponentInfo)
    ensures
        r.component@ == Seq::<char>::empty(),
        r.err@ == fetch_error_text(),
{
    ComponentInfo { component: String::new(), err: String::from_str("Error fetching route") }
}

/// The kinds of lifecycle event the engine emits.
#[derive(Debug, PartialEq, Eq, Clone, Copy, Structural)]
pub enum EventKind {
    RouteChangeError,
    RouteChangeComplete,
}

/// One emitted lifecycle event: its kind and the path it was emitted for.
pub struct LifecycleEvent {
    pub kind: EventKind,
    pub path: String,
}

impl Clone for LifecycleEvent {
    fn clone(&self) -> (r: Self)
        ensures
            r == *self,
    {
        LifecycleEvent { kind: self.kind, path: self.path.clone() }
    }
}

/// One subscriber of the prefetch engine: its handle and the infos delivered
/// to it, in delivery order.
pub struct RouteSubscriber {
    pub token: u64,
    pub inbox: Vec<ComponentInfo>,
}

impl Clone for RouteSubscriber {
    fn clone(&self) -> (r: Self)
        ensures
            r.token == self.token,
            r.inbox@ == self.inbox@,
    {
        RouteSubscriber { token: self.token, inbox: clone_infos(&self.inbox) }
    }
}

/// A copy of a delivery log, entry for entry.
pub(crate) fn clone_infos(v: &Vec<ComponentInfo>) -> (r: Vec<ComponentInfo>)
    ensures
        r@ == v@,
{
    let mut r: Vec<ComponentInfo> = Vec::new();
    let mut i: usize = 0;
    let n = v.len();
    while i < n
        invariant
            0 <= i <= n,
            n == v@.len(),
            r@.len() == i,
            forall|j: int| 0 <= j < i ==> r@[j] == v@[j],
        decreases n - i,
    {
        r.push(v[i].clone());
        i += 1;
    }
    assert(r@ =~= v@);
    r
}

} // verus!
