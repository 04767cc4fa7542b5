use vstd::prelude::*;

verus! {

/// Why a session could not be set up.
#[derive(Clone, Debug, PartialEq, Eq)]
pub enum Error {
    /// No device offers the requested kind of session.
    NoMatchingDevice,
    /// A channel between the content side and the worker could not be set up,
    /// or went away before the worker answered.
    CommunicationError,
    /// A message of the backend, passed on as it came.
    BackendSpecific(String),
}

} // verus!
