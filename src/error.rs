//! Failures of the service and the HTTP reply each one becomes.
use vstd::prelude::*;

use crate::routes::{Reply, INTERNAL_SERVER_ERROR, SERVICE_UNAVAILABLE};

verus! {

#[verifier::external_type_specification]
#[verifier::external_body]
pub struct ExIoError(std::io::Error);

#[verifier::external_type_specification]
#[verifier::external_body]
pub struct ExConfigError(config::ConfigError);

#[verifier::external_type_specification]
#[verifier::external_body]
pub struct ExDockerError(bollard::errors::Error);

/// Every failure that the service can meet: local I/O, the configuration,
/// or talking to the container daemon.
#[derive(Debug)]
pub enum RoseError {
    Io(std::io::Error),
    Config(config::ConfigError),
    Docker(bollard::errors::Error),
}

/// The body sent for a failure: `{"error":"<message>"}`.
pub open spec fn error_body(message: Seq<char>) -> Seq<char> {
    "{\"error\":\""@ + message + "\"}"@
}

impl RoseError {
    /// The status code that the failure is reported with.
    pub open spec fn status_spec(&self) -> u16 {
        match self {
            RoseError::Docker(_) => SERVICE_UNAVAILABLE,
            RoseError::Config(_) => INTERNAL_SERVER_ERROR,
            RoseError::Io(_) => INTERNAL_SERVER_ERROR,
        }
    }

    /// The message that the failure is reported with; the underlying
    /// error's own text never reaches the client.
    pub open spec fn message_spec(&self) -> Seq<char> {
        match self {
            RoseError::Docker(_) => "Docker unavailable"@,
            RoseError::Config(_) => "Config error"@,
            RoseError::Io(_) => "IO error"@,
        }
    }

    pub fn status(&self) -> (r: u16)
        ensures
            r == self.status_spec(),
    {
        match self {
            RoseError::Docker(_) => SERVICE_UNAVAILABLE,
            RoseError::Config(_) => INTERNAL_SERVER_ERROR,
            RoseError::Io(_) => INTERNAL_SERVER_ERROR,
        }
    }

    pub fn message(&self) -> (r: &'static str)
        ensures
            r@ == self.message_spec(),
    {
        match self {
            RoseError::Docker(_) => "Docker unavailable",
            RoseError::Config(_) => "Config error",
            RoseError::Io(_) => "IO error",
        }
    }

    /// The reply for this failure: its status code and the JSON envelope
    /// around its message.
    pub fn into_response(self) -> (r: Reply)
        ensures
            r.status == self.status_spec(),
            r.body@ == error_body(self.message_spec()),
    {
        let mut body = String::from_str("{\"error\":\"");
        body.append(self.message());
        body.append("\"}");
        Reply { status: self.status(), body }
    }
}

} // verus!
