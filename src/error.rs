use vstd::prelude::*;

verus! {

/// Why the backend, or the builder in front of it, turned a provider down.
#[derive(Clone, Copy, Debug, PartialEq, Eq, Structural)]
pub enum RegistrationFault {
    /// Another provider of this process already holds the name.
    DuplicateName,
    /// The name is empty or holds a separator that tracing tools reject.
    InvalidName,
    /// A probe declares more arguments than the backend can carry.
    TooManyArguments,
    /// The backend refused the request for a reason of its own.
    Rejected,
}

/// Every failure that setting up a provider can report.
#[derive(Clone, Copy, Debug, PartialEq, Eq, Structural)]
pub enum TracerError {
    /// The native tracing library or platform support is missing.
    BackendUnavailable,
    /// The provider or one of its probes could not be registered.
    RegistrationError(RegistrationFault),
    /// The declared probe interface does not fit the runtime (a probe declared twice).
    ConfigurationError,
}

} // verus!
