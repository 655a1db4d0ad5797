//! DLC channels embedded in Lightning channels: the sub channel state machine, the
//! identifiers of the DLC channels that a sub channel holds, and a small binary codec.

pub mod channel;
pub mod codec;
pub mod error;
pub mod foreign;
pub mod hashing;
pub mod subchannel;
pub mod test_vectors;
pub mod utils;

use vstd::prelude::*;

verus! {

/// The identifier of a channel.
pub type ChannelId = [u8; 32];

/// The identifier of a contract.
pub type ContractId = [u8; 32];

} // verus!
