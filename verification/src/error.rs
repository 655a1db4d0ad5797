//! The failures of sub channel operations.

use vstd::prelude::*;

verus! {

/// Why an operation on a sub channel was refused. A refused operation leaves the sub channel
/// as it was.
#[derive(Clone, Debug, PartialEq, Eq)]
pub enum Error {
    /// The sub channel is not in the state that the operation starts from.
    InvalidState,
    /// A message bears an update index that is not the one of the sub channel.
    InvalidUpdateIndex,
    /// Something that the operation needs was neither known before nor brought along.
    MissingArtifact,
    /// No DLC channel can be addressed at the given index in the current state.
    UnknownChannel,
    /// A revocation secret does not derive the secrets that were revealed before it.
    InvalidSecret,
    /// The store of revocation secrets holds every secret it has room for.
    SecretsExhausted,
    /// A collaborator of the sub channel refused what was asked of it; the text says why.
    InvalidParameters(String),
}

} // verus!
