//! Error taxonomy: the flat set of failure kinds surfaced by interface
//! bring-up and listener registration, each carrying the human-readable
//! cause reported by the failing backend call.

use vstd::prelude::*;
use vstd::string::StringExecFns;

verus! {

/// A failure from one of the fallible steps of opening an interface or
/// attaching a listener.  There is no hierarchy: each step has its own kind.
#[derive(Debug)]
pub enum PyCanError {
    /// The `python-can` support could not be located at all.
    PythonCanImportFailed(String),
    /// The backend rejected the bus parameters (bad device path, connection
    /// refused, unsupported adapter, and so on).
    FailedToCreateInterface(String),
    /// The background dispatch loop could not be created.
    FailedToCreateNotifier(String),
    /// The dispatch loop refused to take on another listener.
    FailedToAddListener(String),
}

impl PyCanError {
    /// The rendered description of the error: a fixed phrase for the failing
    /// step, followed by the cause reported by the backend.
    pub open spec fn spec_message(self) -> Seq<char> {
        match self {
            PyCanError::PythonCanImportFailed(cause) => "Failed to import python-can - is it installed? :: `"@
                + cause@ + "`"@,
            PyCanError::FailedToCreateInterface(cause) => "Failed to create python-can interface :: `"@
                + cause@ + "`"@,
            PyCanError::FailedToCreateNotifier(cause) => "Failed to create notifier :: `"@ + cause@
                + "`"@,
            PyCanError::FailedToAddListener(cause) => "Failed to add listener :: `"@ + cause@,
        }
    }

    /// Renders the description of [`Self::spec_message`].
    pub fn message(&self) -> (s: String)
        ensures
            s@ == self.spec_message(),
    {
        match self {
            PyCanError::PythonCanImportFailed(cause) => String::from_str(
                "Failed to import python-can - is it installed? :: `",
            ).concat(cause.as_str()).concat("`"),
            PyCanError::FailedToCreateInterface(cause) => String::from_str(
                "Failed to create python-can interface :: `",
            ).concat(cause.as_str()).concat("`"),
            PyCanError::FailedToCreateNotifier(cause) => String::from_str(
                "Failed to create notifier :: `",
            ).concat(cause.as_str()).concat("`"),
            PyCanError::FailedToAddListener(cause) => String::from_str(
                "Failed to add listener :: `",
            ).concat(cause.as_str()),
        }
    }
}

} // verus!
