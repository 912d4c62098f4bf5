//! The location store: the single source of truth for the current location.
//! `dispatch` stores a new location under the next revision — unconditionally,
//! so a re-dispatch of an unchanged path is still observed as a distinct state
//! — and notifies every current subscriber with the new context, synchronously
//! and in registration order. Subscriptions are handle-based: `subscribe`
//! returns an opaque token, `unsubscribe` removes exactly the matching entry
//! and is idempotent, and a subscriber registered twice is notified twice.

use vstd::prelude::*;

use crate::location::{Location, LocationContext};

verus! {

/// One registered subscriber: its handle and the contexts delivered to it, in
/// delivery order.
pub struct StoreSubscriber {
    pub token: u64,
    pub inbox: Vec<LocationContext>,
}

/// The reactive container holding the current location context and the
/// subscriber registry.
pub struct LocationStore {
    pub context: LocationContext,
    pub subscribers: Vec<StoreSubscriber>,
    pub next_token: u64,
}

/// What one `dispatch` of `location` does: the revision grows by one, the new
/// location is stored, and every subscriber receives exactly the new context,
/// with the registry otherwise untouched.
pub open spec fn dispatch_post(
    pre: LocationStore,
    post: LocationStore,
    location: Location,
) -> bool {
    &&& post.context.location == location
    &&& post.context.revision == pre.context.revision + 1
    &&& post.subscribers@.len() == pre.subscribers@.len()
    &&& forall|i: int|
        0 <= i < pre.subscribers@.len() ==> {
            &&& (#[trigger] post.subscribers@[i]).token == pre.subscribers@[i].token
            &&& post.subscribers@[i].inbox@ == pre.subscribers@[i].inbox@.push(post.context)
        }
    &&& post.next_token == pre.next_token
}

/// A chain of dispatches: `post` is reached from `pre` by dispatching the
/// given locations in order.
pub open spec fn dispatched_all(
    pre: LocationStore,
    post: LocationStore,
    locations: Seq<Location>,
) -> bool
    decreases locations.len(),
{
    if locations.len() == 0 {
        post == pre
    } else {
        exists|mid: LocationStore|
            #[trigger] dispatch_post(pre, mid, locations[0]) && dispatched_all(
                mid,
                post,
                locations.skip(1),
            )
    }
}

impl LocationStore {
    /// Tokens are pairwise distinct and below the next one to be handed out.
    pub open spec fn wf(&self) -> bool {
        forall|i: int|
            0 <= i < self.subscribers@.len() ==> (#[trigger] self.subscribers@[i]).token
                < self.next_token
    }

    /// Whether a subscriber under `token` is registered.
    pub open spec fn subscribed(&self, token: u64) -> bool {
        exists|i: int|
            0 <= i < self.subscribers@.len() && (#[trigger] self.subscribers@[i]).token == token
    }

    /// A fresh store: the given location under revision zero, no subscribers.
    pub fn new(location: Location) -> (s: LocationStore)
        ensures
            s.wf(),
            s.context.location == location,
            s.context.revision == 0,
            s.subscribers@.len() == 0,
            s.next_token == 0,
    {
        LocationStore {
            context: LocationContext::initial(location),
            subscribers: Vec::new(),
            next_token: 0,
        }
    }

    /// The current location context, read whole.
    pub fn context(&self) -> (r: LocationContext)
        ensures
            r == self.context,
    {
        self.context.clone()
    }

    /// Registers a subscriber and returns its handle. Registering twice
    /// creates two independent entries, each notified on every dispatch.
    pub fn subscribe(&mut self) -> (token: u64)
        requires
            old(self).wf(),
            old(self).next_token < u64::MAX,
        ensures
            final(self).wf(),
            token == old(self).next_token,
            final(self).subscribers@.len() == old(self).subscribers@.len() + 1,
            final(self).subscribers@.drop_last() == old(self).subscribers@,
            final(self).subscribers@.last().token == token,
            final(self).subscribers@.last().inbox@ == Seq::<LocationContext>::empty(),
            final(self).next_token == old(self).next_token + 1,
            final(self).context == old(self).context,
    {
        let token = self.next_token;
        self.subscribers.push(StoreSubscriber { token, inbox: Vec::new() });
        self.next_token = token + 1;
        token
    }

    /// Removes the subscriber under `token`, if one is registered; removing an
    /// unknown handle changes nothing, so unsubscribing twice is harmless.
    pub fn unsubscribe(&mut self, token: u64)
        requires
            old(self).wf(),
        ensures
            final(self).wf(),
            final(self).context == old(self).context,
            final(self).next_token == old(self).next_token,
            old(self).subscribed(token) ==> exists|i: int|
                0 <= i < old(self).subscribers@.len() && (#[trigger] old(self).subscribers@[i]).token
                    == token && final(self).subscribers@ == old(self).subscribers@.remove(i),
            !old(self).subscribed(token) ==> final(self).subscribers@ == old(self).subscribers@,
    {
        let n = self.subscribers.len();
        let mut i: usize = 0;
        while i < n
            invariant
                0 <= i <= n,
                n == self.subscribers@.len(),
                *self == *old(self),
                old(self).wf(),
                forall|j: int| 0 <= j < i ==> (#[trigger] self.subscribers@[j]).token != token,
            decreases n - i,
        {
            if self.subscribers[i].token == token {
                self.subscribers.remove(i);
                proof {
                    old(self).subscribers@.remove_ensures(i as int);
                }
                return ;
            }
            i += 1;
        }
    }

    /// Applies a history event: bumps the revision, stores the location, and
    /// notifies every subscriber with the new context, in registration order.
    pub fn dispatch(&mut self, location: Location)
        requires
            old(self).wf(),
            old(self).context.revision < u32::MAX,
        ensures
            final(self).wf(),
            dispatch_post(*old(self), *final(self), location),
    {
        let revision = self.context.revision;
        self.context = LocationContext { location, revision: revision + 1 };
        let ctx = self.context.clone();
        let n = self.subscribers.len();
        let mut updated: Vec<StoreSubscriber> = Vec::new();
        let mut i: usize = 0;
        while i < n
            invariant
                0 <= i <= n,
                n == self.subscribers@.len(),
                updated@.len() == i,
                ctx == self.context,
                forall|j: int|
                    0 <= j < i ==> {
                        &&& (#[trigger] updated@[j]).token == self.subscribers@[j].token
                        &&& updated@[j].inbox@ == self.subscribers@[j].inbox@.push(ctx)
                    },
            decreases n - i,
        {
            let entry = &self.subscribers[i];
            let mut inbox = clone_contexts(&entry.inbox);
            inbox.push(ctx.clone());
            updated.push(StoreSubscriber { token: entry.token, inbox });
            i += 1;
        }
        self.subscribers = updated;
    }
}

/// A copy of a delivery log, entry for entry.
fn clone_contexts(v: &Vec<LocationContext>) -> (r: Vec<LocationContext>)
    ensures
        r@ == v@,
{
    let mut r: Vec<LocationContext> = Vec::new();
    let mut i: usize = 0;
    let n = v.len();
    while i < n
        invariant
            0 <= i <= n,
            n == v@.len(),
            r@.len() == i,
            forall|j: int| 0 <= j < i ==> r@[j] == v@[j],
        decreases n - i,
    {
        r.push(v[i].clone());
        i += 1;
    }
    assert(r@ =~= v@);
    r
}

/// Over any chain of dispatches, the revision grows by exactly the number of
/// dispatches — so it strictly increases with every one — and every subscriber
/// that was registered throughout is notified exactly once per dispatch.
pub proof fn lemma_dispatch_chain(pre: LocationStore, post: LocationStore, locations: Seq<Location>)
    requires
        dispatched_all(pre, post, locations),
    ensures
        post.context.revision == pre.context.revision + locations.len(),
        locations.len() > 0 ==> post.context.revision > pre.context.revision,
        post.subscribers@.len() == pre.subscribers@.len(),
        forall|i: int|
            0 <= i < pre.subscribers@.len() ==> (#[trigger] post.subscribers@[i]).inbox@.len()
                == pre.subscribers@[i].inbox@.len() + locations.len(),
    decreases locations.len(),
{
    if locations.len() == 0 {
    } else {
        let mid = choose|mid: LocationStore|
            #[trigger] dispatch_post(pre, mid, locations[0]) && dispatched_all(
                mid,
                post,
                locations.skip(1),
            );
        lemma_dispatch_chain(mid, post, locations.skip(1));
    }
}

} // verus!
