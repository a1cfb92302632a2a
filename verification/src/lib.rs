//! A counter served over HTTP, as a library of pure request handling.
//!
//! The crate holds the counter, the page and the routing table; a server
//! around it owns the socket and the lock and calls in with plain values.

pub mod counter;
pub mod http;
pub mod page;
pub mod router;
pub mod service;
pub mod text;
