//! Errors of the monitor.
use vstd::prelude::*;
use vstd::string::*;

verus! {

#[verifier::external_type_specification]
#[verifier::external_body]
pub struct ExIoError(std::io::Error);

/// What can go wrong in the monitor.
#[derive(Debug)]
pub enum RtopError {
    TerminalInit(std::io::Error),
    Config(String),
    SensorUnavailable(String),
    MonitorUpdate(String),
    Export(String),
    PermissionDenied(String),
    InvalidInput(String),
}

/// Results whose error is an `RtopError`.
pub type Result<T> = std::result::Result<T, RtopError>;

impl From<std::io::Error> for RtopError {
    fn from(e: std::io::Error) -> (r: RtopError)
        ensures
            r == RtopError::TerminalInit(e),
    {
        RtopError::TerminalInit(e)
    }
}

impl vstd::std_specs::convert::FromSpecImpl<std::io::Error> for RtopError {
    open spec fn obeys_from_spec() -> bool {
        true
    }

    open spec fn from_spec(e: std::io::Error) -> RtopError {
        RtopError::TerminalInit(e)
    }
}

/// Relies on the `Display` of `std::io::Error`: its text, whatever it is.
#[verifier::external_body]
fn io_error_text(e: &std::io::Error) -> String {
    e.to_string()
}

/// `prefix` followed by `detail`.
fn prefixed(prefix: &str, detail: &str) -> (r: String)
    ensures
        r@ == prefix@ + detail@,
{
    let mut s = String::from_str(prefix);
    s.append(detail);
    s
}

impl RtopError {
    /// The message shown for this error: what went wrong, then its detail.
    pub fn message(&self) -> (r: String)
        ensures
            self matches RtopError::Config(s) ==> r@ == "Configuration error: "@ + s@,
            self matches RtopError::SensorUnavailable(s) ==> r@ == "Sensor not available: "@ + s@,
            self matches RtopError::MonitorUpdate(s) ==> r@ == "Failed to update monitor: "@ + s@,
            self matches RtopError::Export(s) ==> r@ == "Export error: "@ + s@,
            self matches RtopError::PermissionDenied(s) ==> r@ == "Permission denied: "@ + s@,
            self matches RtopError::InvalidInput(s) ==> r@ == "Invalid input: "@ + s@,
            self is TerminalInit ==> exists|d: Seq<char>| r@ == "Failed to initialize terminal: "@ + d,
    {
        match self {
            RtopError::TerminalInit(e) => {
                let d = io_error_text(e);
                prefixed("Failed to initialize terminal: ", d.as_str())
            },
            RtopError::Config(s) => prefixed("Configuration error: ", s.as_str()),
            RtopError::SensorUnavailable(s) => prefixed("Sensor not available: ", s.as_str()),
            RtopError::MonitorUpdate(s) => prefixed("Failed to update monitor: ", s.as_str()),
            RtopError::Export(s) => prefixed("Export error: ", s.as_str()),
            RtopError::PermissionDenied(s) => prefixed("Permission denied: ", s.as_str()),
            RtopError::InvalidInput(s) => prefixed("Invalid input: ", s.as_str()),
        }
    }
}

} // verus!
