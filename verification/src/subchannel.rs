//! Structures and methods for working with DLC channels embedded in Lightning channels.

pub mod channel_manager;
pub mod ids;
pub mod laws;
pub mod secrets;
pub mod transitions;

use bitcoin::{Script, Transaction, Txid};
use lightning::chain::transaction::OutPoint;
use lightning::ln::chan_utils::CounterpartyCommitmentSecrets;
use secp256k1_zkp::ecdsa::Signature;
use secp256k1_zkp::{EcdsaAdaptorSignature, PublicKey, SecretKey};
use vstd::prelude::*;

use crate::channel::party_points::PartyBasePoints;
use crate::error::Error;
use crate::hashing::{transaction_txid, txid_bytes};
pub use crate::subchannel::ids::generate_temporary_channel_id;
use crate::subchannel::ids::spec_temporary_channel_id;
use crate::utils::{compute_id, spec_compute_id};
use crate::ChannelId;

verus! {

/// Contains information about a DLC channel embedded within a Lightning Network channel.
#[derive(Clone, PartialEq, Eq)]
pub struct SubChannel {
    /// The identifier of the Lightning channel.
    pub channel_id: ChannelId,
    /// The public key of the counter party's node.
    pub counter_party: PublicKey,
    /// The update index of the sub channel.
    pub update_idx: u64,
    /// The state of the sub channel.
    pub state: SubChannelState,
    /// The image of the seed used by the local party to derive all per update points (`None`
    /// on the accept party's side before the sub channel is accepted).
    pub per_split_seed: Option<PublicKey>,
    /// The current fee rate to be used to create transactions.
    pub fee_rate_per_vb: u64,
    /// The points used by the local party to derive revocation secrets for the split
    /// transaction.
    pub own_base_points: PartyBasePoints,
    /// The points used by the remote party to derive revocation secrets for the split
    /// transaction.
    pub counter_base_points: Option<PartyBasePoints>,
    /// The value of the original funding output.
    pub fund_value_satoshis: u64,
    /// The locking script of the original funding output.
    pub original_funding_redeemscript: Script,
    /// Whether the local party is the one who offered the sub channel.
    pub is_offer: bool,
    /// The public key used by the local party for the funding output script.
    pub own_fund_pk: PublicKey,
    /// The public key used by the remote party for the funding output script.
    pub counter_fund_pk: PublicKey,
    /// The revocation secrets from the remote party for already revoked split transactions.
    pub counter_party_secrets: CounterpartyCommitmentSecrets,
}

/// Represents the state of a [`SubChannel`].
#[derive(Debug, Clone, PartialEq, Eq)]
pub enum SubChannelState {
    /// The sub channel was offered (sent or received).
    Offered(OfferedSubChannel),
    /// The sub channel was accepted.
    Accepted(AcceptedSubChannel),
    /// The sub channel was confirmed.
    Confirmed(ConfirmedSubChannel),
    /// The sub channel transactions have been signed, awaiting revocation of the previous
    /// commitment transaction.
    Finalized(SignedSubChannel),
    /// The sub channel transactions have been signed and the previous commitment transaction
    /// revoked.
    Signed(SignedSubChannel),
    /// The sub channel is closing.
    Closing(ClosingSubChannel),
    /// The sub channel has been closed on chain by the local party.
    OnChainClosed,
    /// The sub channel has been closed on chain by the remote party.
    CounterOnChainClosed,
    /// An offer to collaboratively close the sub channel has been made.
    CloseOffered(CloseOfferedSubChannel),
    /// An offer to collaboratively close the sub channel was accepted.
    CloseAccepted(CloseAcceptedSubChannel),
    /// An offer to collaboratively close the sub channel was confirmed.
    CloseConfirmed(CloseConfirmedSubChannel),
    /// The sub channel was closed off chain (reverted to a regular Lightning channel).
    OffChainClosed,
    /// The sub channel was closed by broadcasting a punishment transaction.
    ClosedPunished(Txid),
    /// An offer to establish a sub channel was rejected.
    Rejected,
}

/// Flags associated with states that must be communicated to the remote node during
/// reestablishment.
#[derive(Debug, Clone, Copy, PartialEq, Eq, Structural)]
pub enum ReestablishFlag {
    Offered,
    Accepted,
    Confirmed,
    Finalized,
    Signed,
    CloseOffered,
    CloseAccepted,
    CloseConfirmed,
    OffChainClosed,
}

/// The transaction that splits the funding output of a Lightning channel in two.
#[derive(Debug, Clone, PartialEq, Eq)]
pub struct SplitTx {
    /// The split transaction itself.
    pub transaction: Transaction,
    /// The script that locks the output being split.
    pub output_script: Script,
}

/// Information about an offer to set up a sub channel.
#[derive(Debug, Clone, PartialEq, Eq)]
pub struct OfferedSubChannel {
    /// The current per update point of the local party.
    pub per_split_point: PublicKey,
}

/// Information about a sub channel that is in the accepted state.
#[derive(Debug, Clone, PartialEq, Eq)]
pub struct AcceptedSubChannel {
    /// The current per split point of the offer party.
    pub offer_per_split_point: PublicKey,
    /// The current per split point of the accept party.
    pub accept_per_split_point: PublicKey,
    /// Information about the split transaction for the sub channel.
    pub split_tx: SplitTx,
    /// Glue transaction that bridges the split transaction to the Lightning sub channel.
    pub ln_glue_transaction: Transaction,
    /// Information used to facilitate the rollback of a channel split.
    pub ln_rollback: LnRollBackInfo,
    /// Commitment transactions to broadcast in order to force close the channel.
    pub commitment_transactions: Vec<Transaction>,
}

/// The details of a live Lightning channel that a sub channel reads.
#[derive(Debug, Clone, PartialEq, Eq)]
pub struct ChannelDetails {
    /// The identifier of the channel.
    pub channel_id: ChannelId,
    /// The value of the channel.
    pub channel_value_satoshis: u64,
    /// The balance of the local party in the channel.
    pub balance_msat: u64,
    /// The funding outpoint of the channel, once it has one.
    pub funding_txo: Option<OutPoint>,
}

/// Holds information used to facilitate the rollback of a channel split.
#[derive(Clone, Debug, PartialEq, Eq)]
pub struct LnRollBackInfo {
    /// The original value of the channel.
    pub channel_value_satoshis: u64,
    /// The original `value_to_self_msat` of the Lightning channel.
    pub value_to_self_msat: u64,
    /// The original funding outpoint.
    pub funding_outpoint: OutPoint,
}

/// Information about a sub channel offered by the local party whose transactions have been
/// signed, but whose previous commitment transaction has not been revoked yet.
#[derive(Debug, Clone, PartialEq, Eq)]
pub struct ConfirmedSubChannel {
    /// The current per split point of the local party.
    pub own_per_split_point: PublicKey,
    /// The current per split point of the remote party.
    pub counter_per_split_point: PublicKey,
    /// Adaptor signature of the local party for the split transaction.
    pub own_split_adaptor_signature: EcdsaAdaptorSignature,
    /// Information about the split transaction for the sub channel.
    pub split_tx: SplitTx,
    /// Glue transaction that bridges the split transaction to the Lightning sub channel.
    pub ln_glue_transaction: Transaction,
    /// Signature of the remote party for the glue transaction.
    pub counter_glue_signature: Signature,
    /// The secret to revoke the previous commitment transaction of the Lightning channel.
    pub prev_commitment_secret: SecretKey,
    /// The image of the next commitment point to be used to build a commitment transaction.
    pub next_per_commitment_point: PublicKey,
    /// Information used to facilitate the rollback of a channel split.
    pub ln_rollback: LnRollBackInfo,
    /// Commitment transactions to broadcast in order to force close the channel.
    pub commitment_transactions: Vec<Transaction>,
}

/// Information about a sub channel whose transactions have been signed.
#[derive(Debug, Clone, PartialEq, Eq)]
pub struct SignedSubChannel {
    /// The current per split point of the local party.
    pub own_per_split_point: PublicKey,
    /// The current per split point of the remote party.
    pub counter_per_split_point: PublicKey,
    /// Adaptor signature of the local party for the split transaction.
    pub own_split_adaptor_signature: EcdsaAdaptorSignature,
    /// Adaptor signature of the remote party for the split transaction.
    pub counter_split_adaptor_signature: EcdsaAdaptorSignature,
    /// Information about the split transaction for the sub channel.
    pub split_tx: SplitTx,
    /// Glue transaction that bridges the split transaction to the Lightning sub channel.
    pub ln_glue_transaction: Transaction,
    /// Signature of the remote party for the glue transaction.
    pub counter_glue_signature: Signature,
    /// Information used to facilitate the rollback of a channel split.
    pub ln_rollback: LnRollBackInfo,
}

/// Information about an offer to collaboratively close a sub channel.
#[derive(Debug, Clone, PartialEq, Eq)]
pub struct CloseOfferedSubChannel {
    /// The signed sub channel for which the offer was made.
    pub signed_subchannel: SignedSubChannel,
    /// The proposed balance of the offer party for the DLC sub channel.
    pub offer_balance: u64,
    /// The proposed balance of the accept party for the DLC sub channel.
    pub accept_balance: u64,
    /// Indicates if the local party is the one who made the offer.
    pub is_offer: bool,
}

/// Information about an offer to collaboratively close a sub channel that was accepted.
#[derive(Debug, Clone, PartialEq, Eq)]
pub struct CloseAcceptedSubChannel {
    /// The signed sub channel for which the offer was made.
    pub signed_subchannel: SignedSubChannel,
    /// The balance of the local party for the DLC sub channel.
    pub own_balance: u64,
    /// The balance of the remote party for the DLC sub channel.
    pub counter_balance: u64,
    /// Rollback information about the split channel.
    pub ln_rollback: LnRollBackInfo,
}

/// Information about an offer to collaboratively close a sub channel that was confirmed.
#[derive(Debug, Clone, PartialEq, Eq)]
pub struct CloseConfirmedSubChannel {
    /// The signed sub channel for which the offer was made.
    pub signed_subchannel: SignedSubChannel,
    /// The balance of the local party for the DLC sub channel.
    pub own_balance: u64,
    /// The balance of the remote party for the DLC sub channel.
    pub counter_balance: u64,
    /// Rollback information about the split channel.
    pub ln_rollback: LnRollBackInfo,
    /// Whether to check for the Lightning secret (to deal with reestablishments).
    pub check_ln_secret: bool,
}

/// Information about a sub channel that is in the process of being unilaterally closed.
#[derive(Debug, Clone, PartialEq, Eq)]
pub struct ClosingSubChannel {
    /// The signed sub channel that is being closed.
    pub signed_sub_channel: SignedSubChannel,
    /// Whether the local party initiated the closing.
    pub is_initiator: bool,
}

impl ReestablishFlag {
    /// The byte that stands for the flag on the wire.
    pub open spec fn spec_value(self) -> u8 {
        match self {
            ReestablishFlag::Offered => 1,
            ReestablishFlag::Accepted => 2,
            ReestablishFlag::Confirmed => 3,
            ReestablishFlag::Finalized => 4,
            ReestablishFlag::Signed => 5,
            ReestablishFlag::CloseOffered => 6,
            ReestablishFlag::CloseAccepted => 7,
            ReestablishFlag::CloseConfirmed => 8,
            ReestablishFlag::OffChainClosed => 9,
        }
    }

    /// The byte that stands for the flag on the wire.
    pub fn value(self) -> (byte: u8)
        ensures
            byte == self.spec_value(),
    {
        match self {
            ReestablishFlag::Offered => 1,
            ReestablishFlag::Accepted => 2,
            ReestablishFlag::Confirmed => 3,
            ReestablishFlag::Finalized => 4,
            ReestablishFlag::Signed => 5,
            ReestablishFlag::CloseOffered => 6,
            ReestablishFlag::CloseAccepted => 7,
            ReestablishFlag::CloseConfirmed => 8,
            ReestablishFlag::OffChainClosed => 9,
        }
    }
}

impl SubChannelState {
    /// The split transaction that the state carries: the one under construction or in force,
    /// or, while the sub channel is being closed, the last one that was fully signed.
    pub open spec fn split_transaction(self) -> Option<Transaction> {
        match self {
            SubChannelState::Offered(_) => None,
            SubChannelState::Accepted(a) => Some(a.split_tx.transaction),
            SubChannelState::Confirmed(c) => Some(c.split_tx.transaction),
            SubChannelState::Finalized(s) => Some(s.split_tx.transaction),
            SubChannelState::Signed(s) => Some(s.split_tx.transaction),
            SubChannelState::Closing(c) => Some(c.signed_sub_channel.split_tx.transaction),
            SubChannelState::OnChainClosed => None,
            SubChannelState::CounterOnChainClosed => None,
            SubChannelState::CloseOffered(c) => Some(c.signed_subchannel.split_tx.transaction),
            SubChannelState::CloseAccepted(c) => Some(c.signed_subchannel.split_tx.transaction),
            SubChannelState::CloseConfirmed(c) => Some(c.signed_subchannel.split_tx.transaction),
            SubChannelState::OffChainClosed => None,
            SubChannelState::ClosedPunished(_) => None,
            SubChannelState::Rejected => None,
        }
    }

    /// The byte that announces the state to the remote node when the peers reconnect; `None`
    /// for the states that are settled on chain or not at all.
    pub open spec fn reestablish_flag(self) -> Option<u8> {
        match self {
            SubChannelState::Offered(_) => Some(1u8),
            SubChannelState::Accepted(_) => Some(2u8),
            SubChannelState::Confirmed(_) => Some(3u8),
            SubChannelState::Finalized(_) => Some(4u8),
            SubChannelState::Signed(_) => Some(5u8),
            SubChannelState::Closing(_) => None,
            SubChannelState::OnChainClosed => None,
            SubChannelState::CounterOnChainClosed => None,
            SubChannelState::CloseOffered(_) => Some(6u8),
            SubChannelState::CloseAccepted(_) => Some(7u8),
            SubChannelState::CloseConfirmed(_) => Some(8u8),
            SubChannelState::OffChainClosed => Some(9u8),
            SubChannelState::ClosedPunished(_) => None,
            SubChannelState::Rejected => None,
        }
    }

    /// The rollback information that the state carries.
    pub open spec fn rollback_info(self) -> Option<LnRollBackInfo> {
        match self {
            SubChannelState::Offered(_) => None,
            SubChannelState::Accepted(a) => Some(a.ln_rollback),
            SubChannelState::Confirmed(c) => Some(c.ln_rollback),
            SubChannelState::Finalized(s) => Some(s.ln_rollback),
            SubChannelState::Signed(s) => Some(s.ln_rollback),
            SubChannelState::Closing(c) => Some(c.signed_sub_channel.ln_rollback),
            SubChannelState::OnChainClosed => None,
            SubChannelState::CounterOnChainClosed => None,
            SubChannelState::CloseOffered(c) => Some(c.signed_subchannel.ln_rollback),
            SubChannelState::CloseAccepted(c) => Some(c.ln_rollback),
            SubChannelState::CloseConfirmed(c) => Some(c.ln_rollback),
            SubChannelState::OffChainClosed => None,
            SubChannelState::ClosedPunished(_) => None,
            SubChannelState::Rejected => None,
        }
    }

    /// Whether the rollback information kept for the closing off chain is that of the split
    /// being closed.
    pub open spec fn rollback_agrees(self) -> bool {
        match self {
            SubChannelState::CloseAccepted(c) => c.ln_rollback == c.signed_subchannel.ln_rollback,
            SubChannelState::CloseConfirmed(c) => c.ln_rollback == c.signed_subchannel.ln_rollback,
            _ => true,
        }
    }
}

/// The identifier of the DLC channel at `channel_idx` once the split transaction exists: the
/// temporary identifier bound to the split transaction's id and to output `channel_idx + 1`.
pub open spec fn spec_split_channel_id(
    split_transaction: Transaction,
    temporary_channel_id: Seq<u8>,
    channel_idx: u8,
) -> Seq<u8> {
    spec_compute_id(
        txid_bytes(split_transaction),
        (channel_idx + 1) as u16,
        temporary_channel_id,
    )
}

fn split_channel_id(split_tx: &SplitTx, temporary_channel_id: ChannelId, channel_idx: u8) -> (id:
    ChannelId)
    ensures
        id@ == spec_split_channel_id(split_tx.transaction, temporary_channel_id@, channel_idx),
{
    let index: u16 = channel_idx as u16 + 1;
    compute_id(transaction_txid(&split_tx.transaction), index, &temporary_channel_id)
}

impl AcceptedSubChannel {
    /// The identifier of the DLC channel at `channel_idx` under this state's split transaction.
    pub fn get_dlc_channel_id(&self, temporary_channel_id: ChannelId, channel_idx: u8) -> (id:
        ChannelId)
        ensures
            id@ == spec_split_channel_id(
                self.split_tx.transaction,
                temporary_channel_id@,
                channel_idx,
            ),
    {
        split_channel_id(&self.split_tx, temporary_channel_id, channel_idx)
    }
}

impl ConfirmedSubChannel {
    /// The identifier of the DLC channel at `channel_idx` under this state's split transaction.
    pub fn get_dlc_channel_id(&self, temporary_channel_id: ChannelId, channel_idx: u8) -> (id:
        ChannelId)
        ensures
            id@ == spec_split_channel_id(
                self.split_tx.transaction,
                temporary_channel_id@,
                channel_idx,
            ),
    {
        split_channel_id(&self.split_tx, temporary_channel_id, channel_idx)
    }
}

impl SignedSubChannel {
    /// The identifier of the DLC channel at `channel_idx` under this state's split transaction.
    pub fn get_dlc_channel_id(&self, temporary_channel_id: ChannelId, channel_idx: u8) -> (id:
        ChannelId)
        ensures
            id@ == spec_split_channel_id(
                self.split_tx.transaction,
                temporary_channel_id@,
                channel_idx,
            ),
    {
        split_channel_id(&self.split_tx, temporary_channel_id, channel_idx)
    }
}

impl LnRollBackInfo {
    /// The snapshot of a channel: its value, the local balance and the funding outpoint.
    pub open spec fn spec_from(value: ChannelDetails) -> LnRollBackInfo {
        LnRollBackInfo {
            channel_value_satoshis: value.channel_value_satoshis,
            value_to_self_msat: value.balance_msat,
            funding_outpoint: value.funding_txo->Some_0,
        }
    }

    /// Captures what is needed to roll a split back from the details of a channel, which
    /// must have a funding outpoint.
    pub fn from(value: &ChannelDetails) -> (info: LnRollBackInfo)
        requires
            value.funding_txo is Some,
        ensures
            info == Self::spec_from(*value),
    {
        LnRollBackInfo {
            channel_value_satoshis: value.channel_value_satoshis,
            value_to_self_msat: value.balance_msat,
            funding_outpoint: value.funding_txo.unwrap(),
        }
    }
}

/// The text that `Debug` gives for the bytes of an identifier.
pub uninterp spec fn channel_id_description(channel_id: Seq<u8>) -> Seq<char>;

/// The text that `Debug` gives for a state and what it carries.
pub uninterp spec fn state_description(state: SubChannelState) -> Seq<char>;

/// `format!` with the `Debug` implementation of an array of bytes: the text that shows the
/// bytes of the identifier, which depends on the bytes alone.
#[verifier::external_body]
fn describe_channel_id(channel_id: &ChannelId) -> (text: String)
    ensures
        text@ == channel_id_description(channel_id@),
{
    format!("{:?}", channel_id)
}

/// `format!` with the derived `Debug` implementation of `SubChannelState`: the text that
/// shows the state and what it carries, which depends on the state alone.
#[verifier::external_body]
fn describe_state(state: &SubChannelState) -> (text: String)
    ensures
        text@ == state_description(*state),
{
    format!("{:?}", state)
}

/// `String::push_str`: appends `more` to the end of `text`.
#[verifier::external_body]
fn push_str(text: &mut String, more: &str)
    ensures
        final(text)@ == old(text)@ + more@,
{
    text.push_str(more)
}

impl SubChannel {
    /// What describes the sub channel to a reader of logs: its name, then, between braces,
    /// the identifier of the channel and the state, each behind the name of its field. The
    /// other fields are left out.
    pub open spec fn debug_text(self) -> Seq<char> {
        "SubChannel { channel_id: "@ + channel_id_description(self.channel_id@) + ", state: "@
            + state_description(self.state) + " }"@
    }

    /// A text that names the channel and the state of the sub channel, for logs.
    pub fn debug_string(&self) -> (text: String)
        ensures
            text@ == self.debug_text(),
    {
        let mut text = "SubChannel { channel_id: ".to_owned();
        let channel_id = describe_channel_id(&self.channel_id);
        push_str(&mut text, channel_id.as_str());
        push_str(&mut text, ", state: ");
        let state = describe_state(&self.state);
        push_str(&mut text, state.as_str());
        push_str(&mut text, " }");
        text
    }

    /// The identifier of the DLC channel at `index`, where the state has such a channel:
    /// the temporary identifier while the sub channel is only offered, the identifier bound
    /// to the split transaction once there is one, nothing once the sub channel is closed or
    /// rejected.
    pub open spec fn dlc_channel_id(&self, index: u8) -> Option<Seq<u8>> {
        let temporary_channel_id = spec_temporary_channel_id(
            self.channel_id@,
            self.update_idx,
            index,
        );
        match self.state.split_transaction() {
            Some(split_transaction) => Some(
                spec_split_channel_id(split_transaction, temporary_channel_id, index),
            ),
            None => if self.state is Offered {
                Some(temporary_channel_id)
            } else {
                None
            },
        }
    }

    /// Return the channel ID of the DLC channel at given index if in a state where such a
    /// channel is supposed to exist.
    pub fn get_dlc_channel_id(&self, index: u8) -> (id: Option<ChannelId>)
        ensures
            id is Some <==> self.dlc_channel_id(index) is Some,
            id matches Some(bytes) ==> self.dlc_channel_id(index) == Some(bytes@),
    {
        let temporary_channel_id = generate_temporary_channel_id(
            self.channel_id,
            self.update_idx,
            index,
        );
        match &self.state {
            SubChannelState::Offered(_) => Some(temporary_channel_id),
            SubChannelState::Accepted(a) => Some(a.get_dlc_channel_id(temporary_channel_id, index)),
            SubChannelState::Confirmed(s) => Some(
                s.get_dlc_channel_id(temporary_channel_id, index),
            ),
            SubChannelState::Signed(s) => Some(s.get_dlc_channel_id(temporary_channel_id, index)),
            SubChannelState::Finalized(s) => Some(
                s.get_dlc_channel_id(temporary_channel_id, index),
            ),
            SubChannelState::Closing(c) => Some(
                c.signed_sub_channel.get_dlc_channel_id(temporary_channel_id, index),
            ),
            SubChannelState::CloseOffered(c) => Some(
                c.signed_subchannel.get_dlc_channel_id(temporary_channel_id, index),
            ),
            SubChannelState::CloseAccepted(c) => Some(
                c.signed_subchannel.get_dlc_channel_id(temporary_channel_id, index),
            ),
            SubChannelState::CloseConfirmed(c) => Some(
                c.signed_subchannel.get_dlc_channel_id(temporary_channel_id, index),
            ),
            SubChannelState::OnChainClosed => None,
            SubChannelState::CounterOnChainClosed => None,
            SubChannelState::OffChainClosed => None,
            SubChannelState::ClosedPunished(_) => None,
            SubChannelState::Rejected => None,
        }
    }

    /// The channel ID of the DLC channel that a message refers to by its index. A message
    /// that refers to a channel that the state does not have is refused.
    pub fn expect_dlc_channel_id(&self, index: u8) -> (id: Result<ChannelId, Error>)
        ensures
            match self.dlc_channel_id(index) {
                Some(bytes) => id matches Ok(found) && found@ == bytes,
                None => id == Err::<ChannelId, Error>(Error::UnknownChannel),
            },
    {
        match self.get_dlc_channel_id(index) {
            Some(id) => Ok(id),
            None => Err(Error::UnknownChannel),
        }
    }

    /// Return the flag associated with the state of the sub channel, or `None` if the state
    /// is not relevant for reestablishment.
    pub fn get_reestablish_flag(&self) -> (flag: Option<u8>)
        ensures
            flag == self.state.reestablish_flag(),
    {
        match &self.state {
            SubChannelState::Offered(_) => Some(ReestablishFlag::Offered.value()),
            SubChannelState::Accepted(_) => Some(ReestablishFlag::Accepted.value()),
            SubChannelState::Confirmed(_) => Some(ReestablishFlag::Confirmed.value()),
            SubChannelState::Finalized(_) => Some(ReestablishFlag::Finalized.value()),
            SubChannelState::Signed(_) => Some(ReestablishFlag::Signed.value()),
            SubChannelState::CloseOffered(_) => Some(ReestablishFlag::CloseOffered.value()),
            SubChannelState::CloseAccepted(_) => Some(ReestablishFlag::CloseAccepted.value()),
            SubChannelState::CloseConfirmed(_) => Some(ReestablishFlag::CloseConfirmed.value()),
            SubChannelState::OffChainClosed => Some(ReestablishFlag::OffChainClosed.value()),
            SubChannelState::Closing(_) => None,
            SubChannelState::OnChainClosed => None,
            SubChannelState::CounterOnChainClosed => None,
            SubChannelState::ClosedPunished(_) => None,
            SubChannelState::Rejected => None,
        }
    }
}

} // verus!
