//! The base points of a party to a channel.

use secp256k1_zkp::PublicKey;
use vstd::prelude::*;

verus! {

/// The points from which a party derives the keys of each update of a channel.
#[derive(Clone, Debug, PartialEq, Eq)]
pub struct PartyBasePoints {
    /// The base point for the party's own keys.
    pub own_basepoint: PublicKey,
    /// The base point for the keys that revoke an update.
    pub revocation_basepoint: PublicKey,
    /// The base point for the keys that publish an update.
    pub publish_basepoint: PublicKey,
}

} // verus!
