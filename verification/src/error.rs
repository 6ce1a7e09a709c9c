//! The ways in which the relay fails.

use vstd::prelude::*;

verus! {

/// Why the relay stopped. None of these is recovered from: the first one that
/// occurs ends the run.
#[derive(Clone, Copy, Debug, PartialEq, Eq, Structural)]
pub enum RelayError {
    /// The settings are missing, or a field of them is absent or of the wrong type.
    ConfigError,
    /// The mailbox server could not be reached, or the secure channel to it failed.
    ConnectError,
    /// The mailbox server rejected the credentials.
    AuthError,
    /// The submission transport could not be set up.
    TransportSetupError,
    /// The mailbox server answered a request with a failure, or an answer came
    /// that no request was waiting for.
    ProtocolError,
    /// A message body is not valid UTF-8.
    EncodingError,
    /// The address of the account or of the watched sender is not a mail address.
    AddressError,
    /// The submission server did not accept a reply.
    SubmissionError,
}

} // verus!
