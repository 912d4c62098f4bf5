//! The history model: a stack of locations with a cursor, tagged with the
//! kind of provider it stands for. Pushing truncates the forward part of the
//! stack and appends; replacing overwrites the current entry; `go` moves the
//! cursor by a delta and does nothing when the target is out of range. Query
//! values are URL-encoded on entry, and a value the encoder cannot hold is
//! reported to the caller with the stack left untouched.

use vstd::prelude::*;

use crate::location::{Location, StateValue};
use crate::query::{encode_query, query_encoding};

verus! {

/// The kind of history provider a router runs on.
#[derive(Debug, PartialEq, Eq, Clone, Copy, Structural)]
pub enum RouterKind {
    /// Browser history, backed by the page URL.
    Browser,
    /// Hash history, backed by the URL fragment.
    Hash,
    /// Memory history, backed by nothing outside the process.
    Memory,
}

/// An error raised by a navigation operation: the history layer could not
/// URL-encode the given query value.
#[derive(Debug)]
pub enum NavigationError {
    QueryEncoding(String),
}

impl NavigationError {
    /// What went wrong, as text.
    pub fn message(&self) -> (r: &String)
        ensures
            self matches NavigationError::QueryEncoding(m) && r == m,
    {
        match self {
            NavigationError::QueryEncoding(m) => m,
        }
    }
}

/// The result of a navigation operation.
pub type NavigationResult<T> = Result<T, NavigationError>;

/// One history provider: the navigation stack and a cursor into it, plus a
/// handle-based registry of change listeners.
pub struct AnyHistory {
    pub kind: RouterKind,
    pub entries: Vec<Location>,
    pub index: usize,
    pub listeners: Vec<u64>,
    pub next_listener: u64,
}

/// What any stack mutation that pushes one entry does: everything up to and
/// including the old cursor is kept, one entry follows it, and the cursor
/// moves onto the new entry.
pub open spec fn stack_pushed(pre: AnyHistory, post: AnyHistory) -> bool {
    &&& post.index == pre.index + 1
    &&& post.entries@.len() == pre.index + 2
    &&& post.entries@.subrange(0, pre.index + 1) == pre.entries@.subrange(0, pre.index + 1)
    &&& post.kind == pre.kind
    &&& post.listeners@ == pre.listeners@
    &&& post.next_listener == pre.next_listener
}

/// What moving the cursor by `delta` does: the stack and listeners stay as
/// they were, and the cursor lands on the target when the target is on the
/// stack and stays put when it is not.
pub open spec fn went(pre: AnyHistory, post: AnyHistory, delta: int) -> bool {
    &&& post.entries@ == pre.entries@
    &&& post.kind == pre.kind
    &&& post.listeners@ == pre.listeners@
    &&& post.next_listener == pre.next_listener
    &&& if 0 <= pre.index + delta < pre.entries@.len() {
        post.index == pre.index + delta
    } else {
        post.index == pre.index
    }
}

/// What any stack mutation that replaces the current entry does: the cursor
/// and every other entry stay as they were.
pub open spec fn stack_replaced(pre: AnyHistory, post: AnyHistory) -> bool {
    &&& post.index == pre.index
    &&& post.entries@.len() == pre.entries@.len()
    &&& forall|j: int|
        0 <= j < pre.entries@.len() && j != pre.index ==> #[trigger] post.entries@[j]
            == pre.entries@[j]
    &&& post.kind == pre.kind
    &&& post.listeners@ == pre.listeners@
    &&& post.next_listener == pre.next_listener
}

impl AnyHistory {
    /// The stack is never empty, the cursor is on it, and listener handles are
    /// pairwise distinct and below the next one to be handed out.
    pub open spec fn wf(&self) -> bool {
        &&& self.entries@.len() >= 1
        &&& self.index < self.entries@.len()
        &&& forall|i: int|
            0 <= i < self.listeners@.len() ==> #[trigger] self.listeners@[i] < self.next_listener
    }

    /// The entry the cursor is on.
    pub open spec fn current(&self) -> Location {
        self.entries@[self.index as int]
    }

    /// Whether a listener under `token` is registered.
    pub open spec fn listening(&self, token: u64) -> bool {
        exists|i: int| 0 <= i < self.listeners@.len() && self.listeners@[i] == token
    }

    /// A provider of the given kind holding one entry.
    pub fn new(kind: RouterKind, initial: Location) -> (h: AnyHistory)
        ensures
            h.wf(),
            h.kind == kind,
            h.entries@.len() == 1,
            h.current() == initial,
            h.index == 0,
            h.listeners@.len() == 0,
            h.next_listener == 0,
    {
        let mut entries: Vec<Location> = Vec::new();
        entries.push(initial);
        AnyHistory { kind, entries, index: 0, listeners: Vec::new(), next_listener: 0 }
    }

    /// The current location, read whole.
    pub fn location(&self) -> (r: Location)
        requires
            self.wf(),
        ensures
            r == self.current(),
    {
        self.entries[self.index].clone()
    }

    /// Moves the cursor by `delta` entries; a target outside the stack leaves
    /// everything unchanged.
    pub fn go(&mut self, delta: isize)
        requires
            old(self).wf(),
        ensures
            final(self).wf(),
            went(*old(self), *final(self), delta as int),
    {
        if delta >= 0 {
            let d = delta as usize;
            if d < self.entries.len() - self.index {
                self.index = self.index + d;
            }
        } else {
            // The magnitude of `delta`, computed without overflowing at the
            // far end of the range.
            let d = ((-(delta + 1)) as usize) + 1;
            if d <= self.index {
                self.index = self.index - d;
            }
        }
    }

    /// Pushes a location: drops the forward part of the stack, appends, and
    /// moves the cursor onto the new entry.
    fn push_location(&mut self, location: Location)
        requires
            old(self).wf(),
        ensures
            final(self).wf(),
            stack_pushed(*old(self), *final(self)),
            final(self).current() == location,
    {
        let i = self.index;
        let n = self.entries.len();
        self.entries.truncate(i + 1);
        self.entries.push(location);
        self.index = i + 1;
        assert(self.entries@.subrange(0, i + 1) =~= old(self).entries@.subrange(0, i + 1));
    }

    /// Overwrites the entry the cursor is on.
    fn replace_location(&mut self, location: Location)
        requires
            old(self).wf(),
        ensures
            final(self).wf(),
            stack_replaced(*old(self), *final(self)),
            final(self).current() == location,
    {
        let i = self.index;
        self.entries[i] = location;
    }

    /// Pushes a plain route: no query, no hash, no state.
    pub fn push(&mut self, path: String)
        requires
            old(self).wf(),
        ensures
            final(self).wf(),
            stack_pushed(*old(self), *final(self)),
            final(self).current().path@ == path@,
            final(self).current().query@ == Seq::<char>::empty(),
            final(self).current().hash@ == Seq::<char>::empty(),
            final(self).current().state is Empty,
    {
        self.push_location(Location::on_path(path));
    }

    /// Replaces the current entry with a plain route.
    pub fn replace(&mut self, path: String)
        requires
            old(self).wf(),
        ensures
            final(self).wf(),
            stack_replaced(*old(self), *final(self)),
            final(self).current().path@ == path@,
            final(self).current().query@ == Seq::<char>::empty(),
            final(self).current().hash@ == Seq::<char>::empty(),
            final(self).current().state is Empty,
    {
        self.replace_location(Location::on_path(path));
    }

    /// Pushes a route carrying a state value.
    pub fn push_with_state(&mut self, path: String, state: StateValue)
        requires
            old(self).wf(),
        ensures
            final(self).wf(),
            stack_pushed(*old(self), *final(self)),
            final(self).current().path@ == path@,
            final(self).current().query@ == Seq::<char>::empty(),
            final(self).current().hash@ == Seq::<char>::empty(),
            final(self).current().state == state,
    {
        self.push_location(
            Location { path, query: String::new(), hash: String::new(), state },
        );
    }

    /// Replaces the current entry with a route carrying a state value.
    pub fn replace_with_state(&mut self, path: String, state: StateValue)
        requires
            old(self).wf(),
        ensures
            final(self).wf(),
            stack_replaced(*old(self), *final(self)),
            final(self).current().path@ == path@,
            final(self).current().query@ == Seq::<char>::empty(),
            final(self).current().hash@ == Seq::<char>::empty(),
            final(self).current().state == state,
    {
        self.replace_location(
            Location { path, query: String::new(), hash: String::new(), state },
        );
    }

    /// Pushes a route with a structured query value. Succeeds exactly when the
    /// encoder accepts the value; on failure the error is returned to the
    /// caller and no entry is pushed or changed.
    pub fn push_with_query(&mut self, path: String, query: &serde_json::Value) -> (r:
        NavigationResult<()>)
        requires
            old(self).wf(),
        ensures
            final(self).wf(),
            r is Ok <==> query_encoding(*query) is Some,
            r is Ok ==> {
                &&& stack_pushed(*old(self), *final(self))
                &&& final(self).current().path@ == path@
                &&& Some(final(self).current().query@) == query_encoding(*query)
                &&& final(self).current().hash@ == Seq::<char>::empty()
                &&& final(self).current().state is Empty
            },
            r is Err ==> *final(self) == *old(self),
    {
        match encode_query(query) {
            Ok(encoded) => {
                self.push_location(
                    Location { path, query: encoded, hash: String::new(), state: StateValue::Empty },
                );
                Ok(())
            },
            Err(m) => Err(NavigationError::QueryEncoding(m)),
        }
    }

    /// Pushes a route with a structured query value and a state value, under
    /// the same success condition as a query-only push.
    pub fn push_with_query_and_state(
        &mut self,
        path: String,
        query: &serde_json::Value,
        state: StateValue,
    ) -> (r: NavigationResult<()>)
        requires
            old(self).wf(),
        ensures
            final(self).wf(),
            r is Ok <==> query_encoding(*query) is Some,
            r is Ok ==> {
                &&& stack_pushed(*old(self), *final(self))
                &&& final(self).current().path@ == path@
                &&& Some(final(self).current().query@) == query_encoding(*query)
                &&& final(self).current().hash@ == Seq::<char>::empty()
                &&& final(self).current().state == state
            },
            r is Err ==> *final(self) == *old(self),
    {
        match encode_query(query) {
            Ok(encoded) => {
                self.push_location(Location { path, query: encoded, hash: String::new(), state });
                Ok(())
            },
            Err(m) => Err(NavigationError::QueryEncoding(m)),
        }
    }

    /// Replaces the current entry with a route carrying a structured query
    /// value and a state value, under the same success condition.
    pub fn replace_with_query_and_state(
        &mut self,
        path: String,
        query: &serde_json::Value,
        state: StateValue,
    ) -> (r: NavigationResult<()>)
        requires
            old(self).wf(),
        ensures
            final(self).wf(),
            r is Ok <==> query_encoding(*query) is Some,
            r is Ok ==> {
                &&& stack_replaced(*old(self), *final(self))
                &&& final(self).current().path@ == path@
                &&& Some(final(self).current().query@) == query_encoding(*query)
                &&& final(self).current().hash@ == Seq::<char>::empty()
                &&& final(self).current().state == state
            },
            r is Err ==> *final(self) == *old(self),
    {
        match encode_query(query) {
            Ok(encoded) => {
                self.replace_location(
                    Location { path, query: encoded, hash: String::new(), state },
                );
                Ok(())
            },
            Err(m) => Err(NavigationError::QueryEncoding(m)),
        }
    }

    /// Registers a change listener and returns its handle.
    pub fn listen(&mut self) -> (token: u64)
        requires
            old(self).wf(),
            old(self).next_listener < u64::MAX,
        ensures
            final(self).wf(),
            token == old(self).next_listener,
            final(self).listeners@ == old(self).listeners@.push(token),
            final(self).next_listener == old(self).next_listener + 1,
            final(self).entries@ == old(self).entries@,
            final(self).index == old(self).index,
            final(self).kind == old(self).kind,
    {
        let token = self.next_listener;
        self.listeners.push(token);
        self.next_listener = token + 1;
        token
    }

    /// Removes the listener under `token`, if one is registered; removing an
    /// unknown handle changes nothing.
    pub fn unlisten(&mut self, token: u64)
        requires
            old(self).wf(),
        ensures
            final(self).wf(),
            final(self).entries@ == old(self).entries@,
            final(self).index == old(self).index,
            final(self).kind == old(self).kind,
            final(self).next_listener == old(self).next_listener,
            old(self).listening(token) ==> exists|i: int|
                0 <= i < old(self).listeners@.len() && old(self).listeners@[i] == token
                    && final(self).listeners@ == old(self).listeners@.remove(i),
            !old(self).listening(token) ==> final(self).listeners@ == old(self).listeners@,
    {
        let n = self.listeners.len();
        let mut i: usize = 0;
        while i < n
            invariant
                0 <= i <= n,
                n == self.listeners@.len(),
                *self == *old(self),
                old(self).wf(),
                forall|j: int| 0 <= j < i ==> old(self).listeners@[j] != token,
            decreases n - i,
        {
            if self.listeners[i] == token {
                self.listeners.remove(i);
                proof {
                    old(self).listeners@.remove_ensures(i as int);
                }
                return ;
            }
            i += 1;
        }
    }
}

impl Clone for AnyHistory {
    fn clone(&self) -> (r: Self)
        ensures
            r.kind == self.kind,
            r.entries@ == self.entries@,
            r.index == self.index,
            r.listeners@ == self.listeners@,
            r.next_listener == self.next_listener,
    {
        AnyHistory {
            kind: self.kind,
            entries: clone_locations(&self.entries),
            index: self.index,
            listeners: clone_tokens(&self.listeners),
            next_listener: self.next_listener,
        }
    }
}

/// A copy of a location stack, entry for entry.
fn clone_locations(v: &Vec<Location>) -> (r: Vec<Location>)
    ensures
        r@ == v@,
{
    let mut r: Vec<Location> = Vec::new();
    let mut i: usize = 0;
    let n = v.len();
    while i < n
        invariant
            0 <= i <= n,
            n == v@.len(),
            r@.len() == i,
            forall|j: int| 0 <= j < i ==> r@[j] == v@[j],
        decreases n - i,
    {
        r.push(v[i].clone());
        i += 1;
    }
    assert(r@ =~= v@);
    r
}

/// A copy of a token list.
fn clone_tokens(v: &Vec<u64>) -> (r: Vec<u64>)
    ensures
        r@ == v@,
{
    let mut r: Vec<u64> = Vec::new();
    let mut i: usize = 0;
    let n = v.len();
    while i < n
        invariant
            0 <= i <= n,
            n == v@.len(),
            r@.len() == i,
            forall|j: int| 0 <= j < i ==> r@[j] == v@[j],
        decreases n - i,
    {
        r.push(v[i]);
        i += 1;
    }
    assert(r@ =~= v@);
    r
}

} // verus!
