//! The failure taxonomy of a measurement cycle.

use vstd::prelude::*;
use vstd::string::StringExecFns;

verus! {

/// Everything that can go wrong inside one measurement cycle. Every variant is
/// fatal to the scheduler: a failing cycle stops the whole process, to be
/// restarted by an external supervisor.
#[derive(Debug, Clone, PartialEq, Eq)]
pub enum SwError {
    /// The machine's hostname could not be determined.
    HostResolution(String),
    /// The current wall-clock time could not be read.
    Clock(String),
    /// The write request could not be turned into wire bytes, for instance
    /// because the endpoint URL is malformed.
    Encoding(String),
    /// The credentials could not be encoded into a header value.
    AuthHeader(String),
    /// The request could not be delivered: connection, DNS, TLS or timeout
    /// failure.
    Transport(String),
}

impl SwError {
    /// A human-readable description: a fixed phrase for the variant, followed
    /// by the detail it carries.
    pub fn message(&self) -> (r: String)
        ensures
            self matches SwError::HostResolution(d) ==> r@ == "cannot determine hostname: "@ + d@,
            self matches SwError::Clock(d) ==> r@ == "cannot read the current time: "@ + d@,
            self matches SwError::Encoding(d) ==> r@ == "cannot encode the write request: "@ + d@,
            self matches SwError::AuthHeader(d) ==> r@ == "cannot encode the credentials: "@ + d@,
            self matches SwError::Transport(d) ==> r@ == "cannot deliver the request: "@ + d@,
    {
        match self {
            SwError::HostResolution(d) => String::from_str("cannot determine hostname: ").concat(d.as_str()),
            SwError::Clock(d) => String::from_str("cannot read the current time: ").concat(d.as_str()),
            SwError::Encoding(d) => String::from_str("cannot encode the write request: ").concat(d.as_str()),
            SwError::AuthHeader(d) => String::from_str("cannot encode the credentials: ").concat(d.as_str()),
            SwError::Transport(d) => String::from_str("cannot deliver the request: ").concat(d.as_str()),
        }
    }
}

} // verus!
