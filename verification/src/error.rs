use vstd::prelude::*;

verus! {

/// The ways in which building a signed action can fail.
#[derive(Clone, Copy, Debug, PartialEq, Eq, Structural)]
pub enum Error {
    /// A symbol is not part of the instrument universe.
    AssetNotFound,
    /// The wallet key is not a valid signing key, or signing failed.
    SigningFailure,
    /// An action or a response could not be serialised.
    EncodingFailure,
    /// The agent key does not derive a signing identity.
    KeyGenerationFailure,
    /// The transport reported a failure.
    TransportFailure,
}

} // verus!
