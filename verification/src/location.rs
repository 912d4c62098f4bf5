//! Locations and the location context. A location is an immutable snapshot of
//! where the application is: path, query string, hash, and an opaque state
//! value. The location context pairs the current location with a revision
//! counter that grows on every accepted history event, so that equality over
//! contexts is revision equality and no event is ever missed by value
//! comparison.

use vstd::prelude::*;

verus! {

/// A value carried through navigation state: nothing, a plain string, or a
/// JSON value handed through untouched.
pub enum StateValue {
    Empty,
    Text(String),
    Json(serde_json::Value),
}

impl Clone for StateValue {
    fn clone(&self) -> (r: Self)
        ensures
            r == *self,
    {
        match self {
            StateValue::Empty => StateValue::Empty,
            StateValue::Text(s) => StateValue::Text(s.clone()),
            StateValue::Json(v) => StateValue::Json(v.clone()),
        }
    }
}

/// Where the application currently is: replaced wholesale on every navigation
/// event, never mutated in place.
pub struct Location {
    pub path: String,
    pub query: String,
    pub hash: String,
    pub state: StateValue,
}

impl Clone for Location {
    fn clone(&self) -> (r: Self)
        ensures
            r == *self,
    {
        Location {
            path: self.path.clone(),
            query: self.query.clone(),
            hash: self.hash.clone(),
            state: self.state.clone(),
        }
    }
}

impl Location {
    /// A location at `path` with nothing else attached.
    pub fn on_path(path: String) -> (l: Location)
        ensures
            l.path == path,
            l.query@ == Seq::<char>::empty(),
            l.hash@ == Seq::<char>::empty(),
            l.state is Empty,
    {
        Location { path, query: String::new(), hash: String::new(), state: StateValue::Empty }
    }

    /// The path of the location.
    pub fn path(&self) -> (r: &String)
        ensures
            r == &self.path,
    {
        &self.path
    }

    /// The query string of the location.
    pub fn query_str(&self) -> (r: &String)
        ensures
            r == &self.query,
    {
        &self.query
    }

    /// The hash fragment of the location.
    pub fn hash(&self) -> (r: &String)
        ensures
            r == &self.hash,
    {
        &self.hash
    }

    /// The state value attached to the location.
    pub fn state(&self) -> (r: &StateValue)
        ensures
            r == &self.state,
    {
        &self.state
    }
}

/// The context of the current location: the location itself and the revision
/// under which it was stored. The revision strictly increases on every
/// accepted history event, and equality over contexts is revision equality
/// alone.
pub struct LocationContext {
    pub location: Location,
    pub revision: u32,
}

impl LocationContext {
    /// The context a fresh store starts from: revision zero.
    pub fn initial(location: Location) -> (c: LocationContext)
        ensures
            c.location == location,
            c.revision == 0,
    {
        LocationContext { location, revision: 0 }
    }

    /// Returns the current location.
    pub fn location(&self) -> (r: Location)
        ensures
            r == self.location,
    {
        self.location.clone()
    }

    /// The revision under which the current location was stored.
    pub fn revision(&self) -> (r: u32)
        ensures
            r == self.revision,
    {
        self.revision
    }

    /// Applies a history event: stores the new location under the next
    /// revision, whether or not it differs from the previous one.
    pub fn reduce(self, action: Location) -> (r: LocationContext)
        requires
            self.revision < u32::MAX,
        ensures
            r.location == action,
            r.revision == self.revision + 1,
    {
        LocationContext { location: action, revision: self.revision + 1 }
    }
}

impl Clone for LocationContext {
    fn clone(&self) -> (r: Self)
        ensures
            r == *self,
    {
        LocationContext { location: self.location.clone(), revision: self.revision }
    }
}

impl PartialEq for LocationContext {
    /// Contexts are compared by revision alone: a re-stored location with a
    /// new revision never compares equal to the old context, even when the
    /// location is unchanged.
    fn eq(&self, other: &Self) -> (r: bool) {
        self.revision == other.revision
    }
}

impl vstd::std_specs::cmp::PartialEqSpecImpl for LocationContext {
    open spec fn obeys_eq_spec() -> bool {
        true
    }

    open spec fn eq_spec(&self, other: &LocationContext) -> bool {
        self.revision == other.revision
    }
}

} // verus!
