//! The state shared, read-only, by every request handler.
use vstd::prelude::*;

use crate::config::Config;

verus! {

#[verifier::external_type_specification]
#[verifier::external_body]
pub struct ExDocker(bollard::Docker);

#[verifier::external_type_specification]
#[verifier::external_body]
pub struct ExInstant(tokio::time::Instant);

/// Relies on tokio's derived `Clone` for `Instant`, which is `Copy`: the
/// copy is the same instant.
pub assume_specification[ <tokio::time::Instant as Clone>::clone ](i: &tokio::time::Instant) -> (r:
    tokio::time::Instant)
    ensures
        r == *i,
;

/// Relies on bollard's `Clone` for `Docker`, which shares the transport:
/// another handle to the same connection.
pub assume_specification[ <bollard::Docker as Clone>::clone ](d: &bollard::Docker) -> bollard::Docker;

/// Relies on tokio::time::Instant::now: a reading of the monotonic clock.
#[verifier::external_body]
fn now() -> tokio::time::Instant {
    tokio::time::Instant::now()
}

/// Relies on tokio::time::Instant::elapsed: the time passed since `start`.
#[verifier::external_body]
fn elapsed(start: &tokio::time::Instant) -> std::time::Duration {
    start.elapsed()
}

/// Relies on Duration::as_secs: the whole seconds of a duration.
#[verifier::external_body]
fn whole_seconds(d: std::time::Duration) -> u64 {
    d.as_secs()
}

/// The configuration, the handle to the container daemon, and the moment
/// the service started. Built once at startup and never changed after.
#[derive(Clone)]
pub struct AppState {
    pub config: Config,
    pub docker: bollard::Docker,
    pub start_time: tokio::time::Instant,
}

impl AppState {
    /// The shared state, with the start time taken now.
    pub fn new(config: Config, docker: bollard::Docker) -> (r: AppState)
        ensures
            r.config == config,
            r.docker == docker,
    {
        AppState { config, docker, start_time: now() }
    }

    /// Whole seconds passed since the state was built.
    pub fn uptime_seconds(&self) -> u64 {
        whole_seconds(elapsed(&self.start_time))
    }
}

} // verus!
