use vstd::prelude::*;

verus! {

/// Every failure this library reports, as a typed value.
///
/// All errors surface immediately to the caller; none are swallowed, and a
/// single delivery attempt has no partial-success state.
#[derive(Debug, Clone, PartialEq, Eq)]
pub enum NotifyError {
    /// A boundary integer code lies outside its documented range; carries the
    /// offending value. Detected locally, before any delegation.
    InvalidArgument(i32),
    /// The delivery collaborator rejected or failed to deliver the
    /// notification; carries the collaborator's error text verbatim.
    DeliveryError(String),
    /// The requested capability does not exist on the current platform; a
    /// static, not transient, condition.
    UnsupportedOperation,
    /// The server-information query failed although the capability exists,
    /// e.g. because no server is running; carries the collaborator's error
    /// text verbatim.
    RuntimeError(String),
}

} // verus!
