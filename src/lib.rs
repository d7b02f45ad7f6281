//! Route allocation and resolution for a short-link redirect service.
//!
//! Short identifiers are drawn at random, checked for shape, and bound to a
//! destination URL with an expiry. Creation is admitted by a per-client rate
//! limiter and a validator, then allocated by a bounded retry over fresh
//! identifiers; resolution applies expiry lazily. Allocation is written as a
//! step machine so that a service can run it against any store, and an
//! in-memory store is provided with the same uniqueness guarantee.
pub mod route_id;
pub mod clock;
pub mod validate;
pub mod route;
pub mod store;
pub mod allocator;
pub mod resolver;
pub mod limiter;
pub mod laws;
