//! A front door for one resource whose address changes over time.
//!
//! The crate holds the rules of a small HTTP service: one slot with the
//! current target URL, the check that guards writes to it, and the routing
//! of each request to "fetch and relay", "update the URL" or "not found".
//! Sockets, the upstream fetch and the lock around the slot belong to the
//! program that drives these functions.

pub mod auth;
pub mod reply;
pub mod router;
pub mod store;
pub mod text;
