//! Runtime-status layer of a small HTTP service that reports on a container
//! daemon: the shared state, the bounded health probe's verdict, the
//! normalisation of the daemon's container listing, and the mapping of
//! failures to HTTP replies.
pub mod config;
pub mod error;
pub mod routes;
pub mod state;
