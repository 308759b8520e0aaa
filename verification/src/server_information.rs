use vstd::prelude::*;

use crate::backend::query_server_information;
use crate::errors::NotifyError;

verus! {

/// Identity of the running notification server, as answered by the
/// server-information query: an immutable snapshot, valid only at the
/// instant of the query.
#[derive(Debug, Clone, PartialEq, Eq)]
pub struct PyServerInformation {
    /// The product name of the server.
    pub name: String,
    /// The vendor name.
    pub vendor: String,
    /// The server's version string.
    pub version: String,
    /// The specification version the server is compliant with.
    pub spec_version: String,
}

/// What the server-information query returns for each outcome of the
/// collaborator's call: a snapshot passes through unchanged, and a failure
/// text becomes a runtime error carrying that text verbatim.
pub fn server_info_outcome(outcome: Result<PyServerInformation, String>) -> (r: Result<
    PyServerInformation,
    NotifyError,
>)
    ensures
        outcome matches Ok(info) ==> r == Ok::<PyServerInformation, NotifyError>(info),
        outcome matches Err(text) ==> r == Err::<PyServerInformation, NotifyError>(
            NotifyError::RuntimeError(text),
        ),
{
    match outcome {
        Ok(info) => Ok(info),
        Err(text) => Err(NotifyError::RuntimeError(text)),
    }
}

/// Ask the running notification server for its name, vendor, version and
/// spec version.
///
/// This is the form of the query on platforms where it is meaningful. The
/// answer depends on the server that happens to run, so the contract pins
/// the error handling: every failure is a runtime error carrying the
/// collaborator's text, never any other error kind.
pub fn get_server_information_py() -> (r: Result<PyServerInformation, NotifyError>)
    ensures
        r matches Err(e) ==> e is RuntimeError,
{
    server_info_outcome(query_server_information())
}

/// The form of the server-information query on platforms where it has no
/// defined meaning: it fails unconditionally with the unsupported-operation
/// error, a static capability fact independent of whether a server runs.
pub fn get_server_information_unsupported() -> (r: Result<PyServerInformation, NotifyError>)
    ensures
        r == Err::<PyServerInformation, NotifyError>(NotifyError::UnsupportedOperation),
{
    Err(NotifyError::UnsupportedOperation)
}

} // verus!
