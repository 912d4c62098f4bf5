//! A client-side navigation core for single-page applications: a location and
//! history model, a router facade with basename handling, a route-dispatch
//! step, and a prefetch engine that deduplicates in-flight loads and notifies
//! subscribers of settled fetches.

pub mod dispatch;
pub mod history;
pub mod link;
pub mod location;
pub mod paths;
pub mod prefetch;
pub mod query;
pub mod router;
pub mod store;
