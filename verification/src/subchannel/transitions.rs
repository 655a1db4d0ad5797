//! The steps that take a sub channel from one state to the next.
//!
//! Each step is given twice: as a function on values, which says what the step is, and as a
//! method that performs it in place. A step that is refused leaves the sub channel untouched.

use bitcoin::{Script, Transaction, Txid};
use secp256k1_zkp::ecdsa::Signature;
use secp256k1_zkp::{EcdsaAdaptorSignature, PublicKey, SecretKey};
use vstd::prelude::*;

use crate::channel::party_points::PartyBasePoints;
use crate::error::Error;
use crate::subchannel::secrets::{
    lemma_reveal_keeps_well_formed, new_secrets, reveal_secret, revealed_count, revealed_secret,
    secret_slots, slots_well_formed, spec_reveal,
};
use crate::ChannelId;
use crate::subchannel::{
    AcceptedSubChannel, ChannelDetails, CloseAcceptedSubChannel, CloseConfirmedSubChannel,
    CloseOfferedSubChannel, ClosingSubChannel, ConfirmedSubChannel, LnRollBackInfo,
    OfferedSubChannel, SignedSubChannel, SplitTx, SubChannel, SubChannelState,
};

verus! {

/// What the acceptance of an offered sub channel brings.
#[derive(Debug, Clone, PartialEq, Eq)]
pub struct AcceptInfo {
    /// The update index that the accept message bears.
    pub update_idx: u64,
    /// The per split point of the remote party.
    pub counter_per_split_point: PublicKey,
    /// The base points of the remote party, where the message is the first to tell them.
    pub counter_base_points: Option<PartyBasePoints>,
    /// The image of the seed of the local party, where it commits to one by accepting.
    pub per_split_seed: Option<PublicKey>,
    /// The split transaction built for the sub channel.
    pub split_tx: SplitTx,
    /// The glue transaction built for the sub channel.
    pub ln_glue_transaction: Transaction,
    /// The details of the Lightning channel at the time of acceptance.
    pub channel_details: ChannelDetails,
    /// The commitment transactions to broadcast in order to force close the channel.
    pub commitment_transactions: Vec<Transaction>,
}

/// What the confirmation of an accepted sub channel brings.
#[derive(Debug, Clone, PartialEq, Eq)]
pub struct ConfirmInfo {
    /// The update index that the message bears.
    pub update_idx: u64,
    /// Adaptor signature of the local party for the split transaction.
    pub own_split_adaptor_signature: EcdsaAdaptorSignature,
    /// Signature of the remote party for the glue transaction.
    pub counter_glue_signature: Signature,
    /// The secret to revoke the previous commitment transaction of the Lightning channel.
    pub prev_commitment_secret: SecretKey,
    /// The image of the next commitment point.
    pub next_per_commitment_point: PublicKey,
}

/// What the offer of a new split brings to a sub channel whose last split was closed off
/// chain.
#[derive(Debug, Clone, PartialEq, Eq)]
pub struct OfferInfo {
    /// The update index of the new split.
    pub update_idx: u64,
    /// The per split point of the local party for the new split.
    pub per_split_point: PublicKey,
    /// Whether the local party is the one who offers the new split.
    pub is_offer: bool,
}

/// What was seen on chain of a sub channel that is being closed.
#[derive(Debug, Clone, PartialEq, Eq)]
pub enum ClosingObservation {
    /// The split transaction that the local party broadcast was confirmed.
    LocalClose,
    /// A split transaction that the remote party broadcast was confirmed.
    CounterClose {
        /// The update index of the split transaction that was seen.
        update_idx: u64,
        /// The id of the transaction that claims the funds of the remote party, for the case
        /// that the split transaction seen was revoked.
        punish_txid: Txid,
    },
}

/// What can happen to a sub channel.
#[derive(Debug, Clone, PartialEq, Eq)]
pub enum SubChannelEvent {
    /// The offered sub channel is accepted.
    Accept(AcceptInfo),
    /// The offered sub channel is rejected.
    Reject,
    /// The accepted sub channel is confirmed.
    Confirm(ConfirmInfo),
    /// The remote party's adaptor signature for the split transaction arrives.
    Finalize {
        /// The update index that the message bears.
        update_idx: u64,
        /// Adaptor signature of the remote party for the split transaction.
        counter_split_adaptor_signature: EcdsaAdaptorSignature,
    },
    /// The previous commitment of the Lightning channel is revoked.
    Revoke,
    /// One of the parties decides to close the sub channel on chain.
    ForceClose {
        /// Whether the local party is the one who decides.
        is_initiator: bool,
    },
    /// A transaction that closes the sub channel is confirmed on chain.
    ClosingConfirmed(ClosingObservation),
    /// One of the parties proposes to close the sub channel off chain.
    OfferClose {
        /// The proposed balance of the party that proposes.
        offer_balance: u64,
        /// The proposed balance of the other party.
        accept_balance: u64,
        /// Whether the local party is the one who proposes.
        is_offer: bool,
    },
    /// The proposal to close off chain is accepted.
    AcceptClose,
    /// The signatures that close the sub channel off chain are exchanged.
    ConfirmClose {
        /// Whether to check for the Lightning secret.
        check_ln_secret: bool,
    },
    /// The closing off chain comes to its end.
    FinalizeClose,
}

/// The first of two options that is there.
pub open spec fn first_some<T>(known: Option<T>, brought: Option<T>) -> Option<T> {
    if known is Some {
        known
    } else {
        brought
    }
}

impl SubChannel {
    /// The sub channel in another state, all else unchanged.
    pub open spec fn with_state(self, state: SubChannelState) -> SubChannel {
        SubChannel { state, ..self }
    }

    /// Whether the seed and the base points are there when the state says they are known:
    /// while the sub channel is only offered (or was rejected), the offering party knows its
    /// seed and the other party the base points of the one who offered; from acceptance on
    /// both are known.
    pub open spec fn points_well_formed(self) -> bool {
        match self.state {
            SubChannelState::Offered(_) | SubChannelState::Rejected => if self.is_offer {
                self.per_split_seed is Some
            } else {
                self.counter_base_points is Some
            },
            _ => self.per_split_seed is Some && self.counter_base_points is Some,
        }
    }

    /// The offer of a new split, whose update index is the one that follows the index of the
    /// split that was closed off chain. All that is known of the channel and of the parties
    /// stays, the revocation secrets too.
    pub open spec fn spec_offer_again(self, info: OfferInfo) -> Result<SubChannel, Error> {
        match self.state {
            SubChannelState::OffChainClosed => if info.update_idx != self.update_idx + 1 {
                Err(Error::InvalidUpdateIndex)
            } else {
                Ok(
                    SubChannel {
                        state: SubChannelState::Offered(
                            OfferedSubChannel { per_split_point: info.per_split_point },
                        ),
                        update_idx: info.update_idx,
                        is_offer: info.is_offer,
                        ..self
                    },
                )
            },
            _ => Err(Error::InvalidState),
        }
    }

    /// Acceptance of an offered sub channel. The transactions of the split come with the
    /// acceptance; the rollback information is captured from the details of the channel.
    /// The seed and the remote base points are completed from what the acceptance brings.
    pub open spec fn spec_accept(self, info: AcceptInfo) -> Result<SubChannel, Error> {
        match self.state {
            SubChannelState::Offered(offered) => {
                let seed = first_some(self.per_split_seed, info.per_split_seed);
                let points = first_some(self.counter_base_points, info.counter_base_points);
                if info.update_idx != self.update_idx {
                    Err(Error::InvalidUpdateIndex)
                } else if seed is None || points is None {
                    Err(Error::MissingArtifact)
                } else {
                    Ok(
                        SubChannel {
                            state: SubChannelState::Accepted(
                                AcceptedSubChannel {
                                    offer_per_split_point: if self.is_offer {
                                        offered.per_split_point
                                    } else {
                                        info.counter_per_split_point
                                    },
                                    accept_per_split_point: if self.is_offer {
                                        info.counter_per_split_point
                                    } else {
                                        offered.per_split_point
                                    },
                                    split_tx: info.split_tx,
                                    ln_glue_transaction: info.ln_glue_transaction,
                                    ln_rollback: LnRollBackInfo::spec_from(info.channel_details),
                                    commitment_transactions: info.commitment_transactions,
                                },
                            ),
                            per_split_seed: seed,
                            counter_base_points: points,
                            ..self
                        },
                    )
                }
            },
            _ => Err(Error::InvalidState),
        }
    }

    /// Refusal of an offered sub channel.
    pub open spec fn spec_reject(self) -> Result<SubChannel, Error> {
        match self.state {
            SubChannelState::Offered(_) => Ok(self.with_state(SubChannelState::Rejected)),
            _ => Err(Error::InvalidState),
        }
    }

    /// Confirmation of an accepted sub channel: the local party has signed the split
    /// transaction and holds what retires the previous commitment.
    pub open spec fn spec_confirm(self, info: ConfirmInfo) -> Result<SubChannel, Error> {
        match self.state {
            SubChannelState::Accepted(accepted) => if info.update_idx != self.update_idx {
                Err(Error::InvalidUpdateIndex)
            } else {
                Ok(
                    self.with_state(
                        SubChannelState::Confirmed(
                            ConfirmedSubChannel {
                                own_per_split_point: if self.is_offer {
                                    accepted.offer_per_split_point
                                } else {
                                    accepted.accept_per_split_point
                                },
                                counter_per_split_point: if self.is_offer {
                                    accepted.accept_per_split_point
                                } else {
                                    accepted.offer_per_split_point
                                },
                                own_split_adaptor_signature: info.own_split_adaptor_signature,
                                split_tx: accepted.split_tx,
                                ln_glue_transaction: accepted.ln_glue_transaction,
                                counter_glue_signature: info.counter_glue_signature,
                                prev_commitment_secret: info.prev_commitment_secret,
                                next_per_commitment_point: info.next_per_commitment_point,
                                ln_rollback: accepted.ln_rollback,
                                commitment_transactions: accepted.commitment_transactions,
                            },
                        ),
                    ),
                )
            },
            _ => Err(Error::InvalidState),
        }
    }

    /// Receipt of the remote party's adaptor signature for the split transaction of a
    /// confirmed sub channel.
    pub open spec fn spec_finalize(
        self,
        update_idx: u64,
        counter_split_adaptor_signature: EcdsaAdaptorSignature,
    ) -> Result<SubChannel, Error> {
        match self.state {
            SubChannelState::Confirmed(confirmed) => if update_idx != self.update_idx {
                Err(Error::InvalidUpdateIndex)
            } else {
                Ok(
                    self.with_state(
                        SubChannelState::Finalized(
                            SignedSubChannel {
                                own_per_split_point: confirmed.own_per_split_point,
                                counter_per_split_point: confirmed.counter_per_split_point,
                                own_split_adaptor_signature: confirmed.own_split_adaptor_signature,
                                counter_split_adaptor_signature,
                                split_tx: confirmed.split_tx,
                                ln_glue_transaction: confirmed.ln_glue_transaction,
                                counter_glue_signature: confirmed.counter_glue_signature,
                                ln_rollback: confirmed.ln_rollback,
                            },
                        ),
                    ),
                )
            },
            _ => Err(Error::InvalidState),
        }
    }

    /// Revocation of the previous commitment of the Lightning channel, which puts the split
    /// of a finalized sub channel in force.
    pub open spec fn spec_revoke(self) -> Result<SubChannel, Error> {
        match self.state {
            SubChannelState::Finalized(signed) => Ok(
                self.with_state(SubChannelState::Signed(signed)),
            ),
            _ => Err(Error::InvalidState),
        }
    }

    /// The decision, of the local party or of the remote one, to close a signed sub channel
    /// on chain.
    pub open spec fn spec_force_close(self, is_initiator: bool) -> Result<SubChannel, Error> {
        match self.state {
            SubChannelState::Signed(signed) => Ok(
                self.with_state(
                    SubChannelState::Closing(
                        ClosingSubChannel { signed_sub_channel: signed, is_initiator },
                    ),
                ),
            ),
            _ => Err(Error::InvalidState),
        }
    }

    /// The proposal to close a signed sub channel off chain, with a balance for each party.
    pub open spec fn spec_offer_close(
        self,
        offer_balance: u64,
        accept_balance: u64,
        is_offer: bool,
    ) -> Result<SubChannel, Error> {
        match self.state {
            SubChannelState::Signed(signed) => Ok(
                self.with_state(
                    SubChannelState::CloseOffered(
                        CloseOfferedSubChannel {
                            signed_subchannel: signed,
                            offer_balance,
                            accept_balance,
                            is_offer,
                        },
                    ),
                ),
            ),
            _ => Err(Error::InvalidState),
        }
    }

    /// Acceptance of the proposal to close off chain: the proposed balances become those of
    /// the local and of the remote party, and the rollback information is that of the split.
    pub open spec fn spec_accept_close(self) -> Result<SubChannel, Error> {
        match self.state {
            SubChannelState::CloseOffered(close) => Ok(
                self.with_state(
                    SubChannelState::CloseAccepted(
                        CloseAcceptedSubChannel {
                            signed_subchannel: close.signed_subchannel,
                            own_balance: if close.is_offer {
                                close.offer_balance
                            } else {
                                close.accept_balance
                            },
                            counter_balance: if close.is_offer {
                                close.accept_balance
                            } else {
                                close.offer_balance
                            },
                            ln_rollback: close.signed_subchannel.ln_rollback,
                        },
                    ),
                ),
            ),
            _ => Err(Error::InvalidState),
        }
    }

    /// Exchange of the signatures that close the sub channel off chain.
    pub open spec fn spec_confirm_close(self, check_ln_secret: bool) -> Result<SubChannel, Error> {
        match self.state {
            SubChannelState::CloseAccepted(close) => Ok(
                self.with_state(
                    SubChannelState::CloseConfirmed(
                        CloseConfirmedSubChannel {
                            signed_subchannel: close.signed_subchannel,
                            own_balance: close.own_balance,
                            counter_balance: close.counter_balance,
                            ln_rollback: close.ln_rollback,
                            check_ln_secret,
                        },
                    ),
                ),
            ),
            _ => Err(Error::InvalidState),
        }
    }

    /// The end of the closing off chain: the sub channel is dismantled, and the Lightning
    /// channel is to be restored from the rollback information that is handed out.
    pub open spec fn spec_finalize_close(self) -> Result<(SubChannel, LnRollBackInfo), Error> {
        match self.state {
            SubChannelState::CloseConfirmed(close) => Ok(
                (self.with_state(SubChannelState::OffChainClosed), close.ln_rollback),
            ),
            _ => Err(Error::InvalidState),
        }
    }

    /// Whether the store of revocation secrets is one to which secrets were revealed in turn.
    pub open spec fn secrets_well_formed(self) -> bool {
        slots_well_formed(secret_slots(self.counter_party_secrets))
    }

    /// Whether the sub channel is one that the steps below can have led to: the seed and the
    /// base points are known as the state says, the rollback information is that of the
    /// split, and the revocation secrets were revealed in turn, for no split beyond the one
    /// that the update index counts.
    pub open spec fn well_formed(self) -> bool {
        &&& self.points_well_formed()
        &&& self.state.rollback_agrees()
        &&& self.secrets_well_formed()
        &&& revealed_count(secret_slots(self.counter_party_secrets)) <= self.update_idx + 1
    }

    /// Whether the remote party has revealed the secret that revokes the split of update
    /// index `update_idx`.
    pub open spec fn knows_revocation_secret(self, update_idx: u64) -> bool {
        update_idx < revealed_count(secret_slots(self.counter_party_secrets))
    }

    /// The end of a closing on chain. The local party's own transaction closes the sub
    /// channel for it; one of the remote party closes it for the remote party, unless the
    /// secret that revokes the transaction is known: then the remote party is punished.
    pub open spec fn spec_resolve_closing(
        self,
        observed: ClosingObservation,
        secret_known: bool,
    ) -> Result<SubChannel, Error> {
        match self.state {
            SubChannelState::Closing(_) => Ok(
                self.with_state(
                    match observed {
                        ClosingObservation::LocalClose => SubChannelState::OnChainClosed,
                        ClosingObservation::CounterClose { update_idx, punish_txid } => if secret_known {
                            SubChannelState::ClosedPunished(punish_txid)
                        } else {
                            SubChannelState::CounterOnChainClosed
                        },
                    },
                ),
            ),
            _ => Err(Error::InvalidState),
        }
    }

    /// Whether the sub channel knows the secret that revokes what was seen on chain.
    pub open spec fn knows_secret_against(self, observed: ClosingObservation) -> bool {
        match observed {
            ClosingObservation::LocalClose => false,
            ClosingObservation::CounterClose { update_idx, punish_txid } =>
                self.knows_revocation_secret(update_idx),
        }
    }

    /// What an event makes of the sub channel: the sub channel after it, and the rollback
    /// information from which to restore the Lightning channel where the event ends a
    /// closing off chain.
    pub open spec fn spec_apply(self, event: SubChannelEvent) -> Result<
        (SubChannel, Option<LnRollBackInfo>),
        Error,
    > {
        match event {
            SubChannelEvent::FinalizeClose => match self.spec_finalize_close() {
                Ok((next, ln_rollback)) => Ok((next, Some(ln_rollback))),
                Err(error) => Err(error),
            },
            _ => match self.spec_state_after(event) {
                Ok(next) => Ok((next, None)),
                Err(error) => Err(error),
            },
        }
    }

    /// The sub channel after an event.
    pub open spec fn spec_state_after(self, event: SubChannelEvent) -> Result<SubChannel, Error> {
        match event {
            SubChannelEvent::Accept(info) => self.spec_accept(info),
            SubChannelEvent::Reject => self.spec_reject(),
            SubChannelEvent::Confirm(info) => self.spec_confirm(info),
            SubChannelEvent::Finalize { update_idx, counter_split_adaptor_signature } =>
                self.spec_finalize(update_idx, counter_split_adaptor_signature),
            SubChannelEvent::Revoke => self.spec_revoke(),
            SubChannelEvent::ForceClose { is_initiator } => self.spec_force_close(is_initiator),
            SubChannelEvent::ClosingConfirmed(observed) => self.spec_resolve_closing(
                observed,
                self.knows_secret_against(observed),
            ),
            SubChannelEvent::OfferClose { offer_balance, accept_balance, is_offer } =>
                self.spec_offer_close(offer_balance, accept_balance, is_offer),
            SubChannelEvent::AcceptClose => self.spec_accept_close(),
            SubChannelEvent::ConfirmClose { check_ln_secret } => self.spec_confirm_close(
                check_ln_secret,
            ),
            SubChannelEvent::FinalizeClose => match self.spec_finalize_close() {
                Ok((next, ln_rollback)) => Ok(next),
                Err(error) => Err(error),
            },
        }
    }

    /// The sub channel that the local party offers: it knows its own seed, and nothing yet of
    /// the base points of the remote party. The update index of the first split is 0, and no
    /// revocation secret is known.
    pub fn new_offered(
        channel_id: ChannelId,
        counter_party: PublicKey,
        per_split_point: PublicKey,
        per_split_seed: PublicKey,
        fee_rate_per_vb: u64,
        own_base_points: PartyBasePoints,
        fund_value_satoshis: u64,
        original_funding_redeemscript: Script,
        own_fund_pk: PublicKey,
        counter_fund_pk: PublicKey,
    ) -> (sub_channel: SubChannel)
        ensures
            sub_channel.well_formed(),
            sub_channel.channel_id == channel_id,
            sub_channel.counter_party == counter_party,
            sub_channel.update_idx == 0,
            sub_channel.state == SubChannelState::Offered(OfferedSubChannel { per_split_point }),
            sub_channel.per_split_seed == Some(per_split_seed),
            sub_channel.fee_rate_per_vb == fee_rate_per_vb,
            sub_channel.own_base_points == own_base_points,
            sub_channel.counter_base_points is None,
            sub_channel.fund_value_satoshis == fund_value_satoshis,
            sub_channel.original_funding_redeemscript == original_funding_redeemscript,
            sub_channel.is_offer,
            sub_channel.own_fund_pk == own_fund_pk,
            sub_channel.counter_fund_pk == counter_fund_pk,
            revealed_count(secret_slots(sub_channel.counter_party_secrets)) == 0,
    {
        SubChannel {
            channel_id,
            counter_party,
            update_idx: 0,
            state: SubChannelState::Offered(OfferedSubChannel { per_split_point }),
            per_split_seed: Some(per_split_seed),
            fee_rate_per_vb,
            own_base_points,
            counter_base_points: None,
            fund_value_satoshis,
            original_funding_redeemscript,
            is_offer: true,
            own_fund_pk,
            counter_fund_pk,
            counter_party_secrets: new_secrets(),
        }
    }

    /// The sub channel that the remote party offers: its base points are known, and the local
    /// party has not committed to a seed yet. The update index of the first split is 0, and
    /// no revocation secret is known.
    pub fn new_received(
        channel_id: ChannelId,
        counter_party: PublicKey,
        per_split_point: PublicKey,
        fee_rate_per_vb: u64,
        own_base_points: PartyBasePoints,
        counter_base_points: PartyBasePoints,
        fund_value_satoshis: u64,
        original_funding_redeemscript: Script,
        own_fund_pk: PublicKey,
        counter_fund_pk: PublicKey,
    ) -> (sub_channel: SubChannel)
        ensures
            sub_channel.well_formed(),
            sub_channel.channel_id == channel_id,
            sub_channel.counter_party == counter_party,
            sub_channel.update_idx == 0,
            sub_channel.state == SubChannelState::Offered(OfferedSubChannel { per_split_point }),
            sub_channel.per_split_seed is None,
            sub_channel.fee_rate_per_vb == fee_rate_per_vb,
            sub_channel.own_base_points == own_base_points,
            sub_channel.counter_base_points == Some(counter_base_points),
            sub_channel.fund_value_satoshis == fund_value_satoshis,
            sub_channel.original_funding_redeemscript == original_funding_redeemscript,
            !sub_channel.is_offer,
            sub_channel.own_fund_pk == own_fund_pk,
            sub_channel.counter_fund_pk == counter_fund_pk,
            revealed_count(secret_slots(sub_channel.counter_party_secrets)) == 0,
    {
        SubChannel {
            channel_id,
            counter_party,
            update_idx: 0,
            state: SubChannelState::Offered(OfferedSubChannel { per_split_point }),
            per_split_seed: None,
            fee_rate_per_vb,
            own_base_points,
            counter_base_points: Some(counter_base_points),
            fund_value_satoshis,
            original_funding_redeemscript,
            is_offer: false,
            own_fund_pk,
            counter_fund_pk,
            counter_party_secrets: new_secrets(),
        }
    }

    /// Starts a new split on the sub channel, whose last split was closed off chain. An
    /// update index that does not follow the one of the sub channel is refused.
    pub fn offer_again(&mut self, info: OfferInfo) -> (result: Result<(), Error>)
        ensures
            match old(self).spec_offer_again(info) {
                Ok(next) => result is Ok && *final(self) == next,
                Err(error) => result == Err::<(), Error>(error) && *final(self) == *old(self),
            },
    {
        match &self.state {
            SubChannelState::OffChainClosed => {
                if info.update_idx <= self.update_idx || info.update_idx - self.update_idx != 1 {
                    return Err(Error::InvalidUpdateIndex);
                }
                self.state = SubChannelState::Offered(
                    OfferedSubChannel { per_split_point: info.per_split_point },
                );
                self.update_idx = info.update_idx;
                self.is_offer = info.is_offer;
                Ok(())
            },
            _ => Err(Error::InvalidState),
        }
    }

    /// Accepts the offered sub channel with what the acceptance brings. The details of the
    /// channel must name its funding outpoint.
    pub fn accept(&mut self, info: AcceptInfo) -> (result: Result<(), Error>)
        requires
            info.channel_details.funding_txo is Some,
        ensures
            match old(self).spec_accept(info) {
                Ok(next) => result is Ok && *final(self) == next,
                Err(error) => result == Err::<(), Error>(error) && *final(self) == *old(self),
            },
    {
        let offered = match &self.state {
            SubChannelState::Offered(_) => true,
            _ => false,
        };
        if !offered {
            return Err(Error::InvalidState);
        }
        if info.update_idx != self.update_idx {
            return Err(Error::InvalidUpdateIndex);
        }
        let seed_known = self.per_split_seed.is_some() || info.per_split_seed.is_some();
        let points_known = self.counter_base_points.is_some()
            || info.counter_base_points.is_some();
        if !seed_known || !points_known {
            return Err(Error::MissingArtifact);
        }
        let ln_rollback = LnRollBackInfo::from(&info.channel_details);
        let mut state = SubChannelState::Rejected;
        core::mem::swap(&mut self.state, &mut state);
        match state {
            SubChannelState::Offered(offered) => {
                let (offer_per_split_point, accept_per_split_point) = if self.is_offer {
                    (offered.per_split_point, info.counter_per_split_point)
                } else {
                    (info.counter_per_split_point, offered.per_split_point)
                };
                self.state = SubChannelState::Accepted(
                    AcceptedSubChannel {
                        offer_per_split_point,
                        accept_per_split_point,
                        split_tx: info.split_tx,
                        ln_glue_transaction: info.ln_glue_transaction,
                        ln_rollback,
                        commitment_transactions: info.commitment_transactions,
                    },
                );
                if self.per_split_seed.is_none() {
                    self.per_split_seed = info.per_split_seed;
                }
                if self.counter_base_points.is_none() {
                    self.counter_base_points = info.counter_base_points;
                }
                Ok(())
            },
            other => {
                self.state = other;
                Err(Error::InvalidState)
            },
        }
    }

    /// Marks the offered sub channel as rejected.
    pub fn reject(&mut self) -> (result: Result<(), Error>)
        ensures
            match old(self).spec_reject() {
                Ok(next) => result is Ok && *final(self) == next,
                Err(error) => result == Err::<(), Error>(error) && *final(self) == *old(self),
            },
    {
        match &self.state {
            SubChannelState::Offered(_) => {
                self.state = SubChannelState::Rejected;
                Ok(())
            },
            _ => Err(Error::InvalidState),
        }
    }

    /// Confirms the accepted sub channel with what the confirmation brings.
    pub fn confirm(&mut self, info: ConfirmInfo) -> (result: Result<(), Error>)
        ensures
            match old(self).spec_confirm(info) {
                Ok(next) => result is Ok && *final(self) == next,
                Err(error) => result == Err::<(), Error>(error) && *final(self) == *old(self),
            },
    {
        let accepted = match &self.state {
            SubChannelState::Accepted(_) => true,
            _ => false,
        };
        if !accepted {
            return Err(Error::InvalidState);
        }
        if info.update_idx != self.update_idx {
            return Err(Error::InvalidUpdateIndex);
        }
        let mut state = SubChannelState::Rejected;
        core::mem::swap(&mut self.state, &mut state);
        match state {
            SubChannelState::Accepted(accepted) => {
                let (own_per_split_point, counter_per_split_point) = if self.is_offer {
                    (accepted.offer_per_split_point, accepted.accept_per_split_point)
                } else {
                    (accepted.accept_per_split_point, accepted.offer_per_split_point)
                };
                self.state = SubChannelState::Confirmed(
                    ConfirmedSubChannel {
                        own_per_split_point,
                        counter_per_split_point,
                        own_split_adaptor_signature: info.own_split_adaptor_signature,
                        split_tx: accepted.split_tx,
                        ln_glue_transaction: accepted.ln_glue_transaction,
                        counter_glue_signature: info.counter_glue_signature,
                        prev_commitment_secret: info.prev_commitment_secret,
                        next_per_commitment_point: info.next_per_commitment_point,
                        ln_rollback: accepted.ln_rollback,
                        commitment_transactions: accepted.commitment_transactions,
                    },
                );
                Ok(())
            },
            other => {
                self.state = other;
                Err(Error::InvalidState)
            },
        }
    }

    /// Takes in the remote party's adaptor signature for the split transaction of the
    /// confirmed sub channel.
    pub fn finalize(
        &mut self,
        update_idx: u64,
        counter_split_adaptor_signature: EcdsaAdaptorSignature,
    ) -> (result: Result<(), Error>)
        ensures
            match old(self).spec_finalize(update_idx, counter_split_adaptor_signature) {
                Ok(next) => result is Ok && *final(self) == next,
                Err(error) => result == Err::<(), Error>(error) && *final(self) == *old(self),
            },
    {
        let confirmed = match &self.state {
            SubChannelState::Confirmed(_) => true,
            _ => false,
        };
        if !confirmed {
            return Err(Error::InvalidState);
        }
        if update_idx != self.update_idx {
            return Err(Error::InvalidUpdateIndex);
        }
        let mut state = SubChannelState::Rejected;
        core::mem::swap(&mut self.state, &mut state);
        match state {
            SubChannelState::Confirmed(confirmed) => {
                self.state = SubChannelState::Finalized(
                    SignedSubChannel {
                        own_per_split_point: confirmed.own_per_split_point,
                        counter_per_split_point: confirmed.counter_per_split_point,
                        own_split_adaptor_signature: confirmed.own_split_adaptor_signature,
                        counter_split_adaptor_signature,
                        split_tx: confirmed.split_tx,
                        ln_glue_transaction: confirmed.ln_glue_transaction,
                        counter_glue_signature: confirmed.counter_glue_signature,
                        ln_rollback: confirmed.ln_rollback,
                    },
                );
                Ok(())
            },
            other => {
                self.state = other;
                Err(Error::InvalidState)
            },
        }
    }

    /// Puts the split of the finalized sub channel in force, once the previous commitment of
    /// the Lightning channel has been revoked.
    pub fn revoke(&mut self) -> (result: Result<(), Error>)
        ensures
            match old(self).spec_revoke() {
                Ok(next) => result is Ok && *final(self) == next,
                Err(error) => result == Err::<(), Error>(error) && *final(self) == *old(self),
            },
    {
        let mut state = SubChannelState::Rejected;
        core::mem::swap(&mut self.state, &mut state);
        match state {
            SubChannelState::Finalized(signed) => {
                self.state = SubChannelState::Signed(signed);
                Ok(())
            },
            other => {
                self.state = other;
                Err(Error::InvalidState)
            },
        }
    }

    /// Starts the closing on chain of the signed sub channel.
    pub fn force_close(&mut self, is_initiator: bool) -> (result: Result<(), Error>)
        ensures
            match old(self).spec_force_close(is_initiator) {
                Ok(next) => result is Ok && *final(self) == next,
                Err(error) => result == Err::<(), Error>(error) && *final(self) == *old(self),
            },
    {
        let mut state = SubChannelState::Rejected;
        core::mem::swap(&mut self.state, &mut state);
        match state {
            SubChannelState::Signed(signed) => {
                self.state = SubChannelState::Closing(
                    ClosingSubChannel { signed_sub_channel: signed, is_initiator },
                );
                Ok(())
            },
            other => {
                self.state = other;
                Err(Error::InvalidState)
            },
        }
    }

    /// Records the proposal to close the signed sub channel off chain.
    pub fn offer_close(&mut self, offer_balance: u64, accept_balance: u64, is_offer: bool) -> (result:
        Result<(), Error>)
        ensures
            match old(self).spec_offer_close(offer_balance, accept_balance, is_offer) {
                Ok(next) => result is Ok && *final(self) == next,
                Err(error) => result == Err::<(), Error>(error) && *final(self) == *old(self),
            },
    {
        let mut state = SubChannelState::Rejected;
        core::mem::swap(&mut self.state, &mut state);
        match state {
            SubChannelState::Signed(signed) => {
                self.state = SubChannelState::CloseOffered(
                    CloseOfferedSubChannel {
                        signed_subchannel: signed,
                        offer_balance,
                        accept_balance,
                        is_offer,
                    },
                );
                Ok(())
            },
            other => {
                self.state = other;
                Err(Error::InvalidState)
            },
        }
    }

    /// Accepts the proposal to close the sub channel off chain.
    pub fn accept_close(&mut self) -> (result: Result<(), Error>)
        ensures
            match old(self).spec_accept_close() {
                Ok(next) => result is Ok && *final(self) == next,
                Err(error) => result == Err::<(), Error>(error) && *final(self) == *old(self),
            },
    {
        let mut state = SubChannelState::Rejected;
        core::mem::swap(&mut self.state, &mut state);
        match state {
            SubChannelState::CloseOffered(close) => {
                let (own_balance, counter_balance) = if close.is_offer {
                    (close.offer_balance, close.accept_balance)
                } else {
                    (close.accept_balance, close.offer_balance)
                };
                let ln_rollback = LnRollBackInfo {
                    channel_value_satoshis: close.signed_subchannel.ln_rollback.channel_value_satoshis,
                    value_to_self_msat: close.signed_subchannel.ln_rollback.value_to_self_msat,
                    funding_outpoint: close.signed_subchannel.ln_rollback.funding_outpoint,
                };
                self.state = SubChannelState::CloseAccepted(
                    CloseAcceptedSubChannel {
                        signed_subchannel: close.signed_subchannel,
                        own_balance,
                        counter_balance,
                        ln_rollback,
                    },
                );
                Ok(())
            },
            other => {
                self.state = other;
                Err(Error::InvalidState)
            },
        }
    }

    /// Records that the signatures that close the sub channel off chain were exchanged.
    pub fn confirm_close(&mut self, check_ln_secret: bool) -> (result: Result<(), Error>)
        ensures
            match old(self).spec_confirm_close(check_ln_secret) {
                Ok(next) => result is Ok && *final(self) == next,
                Err(error) => result == Err::<(), Error>(error) && *final(self) == *old(self),
            },
    {
        let mut state = SubChannelState::Rejected;
        core::mem::swap(&mut self.state, &mut state);
        match state {
            SubChannelState::CloseAccepted(close) => {
                self.state = SubChannelState::CloseConfirmed(
                    CloseConfirmedSubChannel {
                        signed_subchannel: close.signed_subchannel,
                        own_balance: close.own_balance,
                        counter_balance: close.counter_balance,
                        ln_rollback: close.ln_rollback,
                        check_ln_secret,
                    },
                );
                Ok(())
            },
            other => {
                self.state = other;
                Err(Error::InvalidState)
            },
        }
    }

    /// Ends the closing off chain and hands out the rollback information from which the
    /// Lightning channel is to be restored.
    pub fn finalize_close(&mut self) -> (result: Result<LnRollBackInfo, Error>)
        ensures
            match old(self).spec_finalize_close() {
                Ok((next, ln_rollback)) => result == Ok::<LnRollBackInfo, Error>(ln_rollback)
                    && *final(self) == next,
                Err(error) => result == Err::<LnRollBackInfo, Error>(error) && *final(self)
                    == *old(self),
            },
    {
        let mut state = SubChannelState::Rejected;
        core::mem::swap(&mut self.state, &mut state);
        match state {
            SubChannelState::CloseConfirmed(close) => {
                self.state = SubChannelState::OffChainClosed;
                Ok(close.ln_rollback)
            },
            other => {
                self.state = other;
                Err(Error::InvalidState)
            },
        }
    }
    /// Whether two sub channels are the same but for their revocation secrets.
    pub open spec fn same_but_secrets(self, other: SubChannel) -> bool {
        self == (SubChannel { counter_party_secrets: self.counter_party_secrets, ..other })
    }

    /// What revealing `secret` as the one of update index `update_idx` makes of the revocation
    /// secrets of the sub channel: no secret is taken in for a split beyond the one that the
    /// update index of the sub channel counts.
    pub open spec fn spec_reveal_secret(self, update_idx: u64, secret: Seq<u8>) -> Result<
        Seq<(Seq<u8>, u64)>,
        Error,
    > {
        if update_idx > self.update_idx {
            Err(Error::InvalidUpdateIndex)
        } else {
            spec_reveal(secret_slots(self.counter_party_secrets), update_idx, secret)
        }
    }

    /// Takes in the secret that the remote party reveals to revoke the split of update index
    /// `update_idx`, which must be the next in turn and not beyond the update index of the
    /// sub channel. All but the revocation secrets stays as it is; a refusal changes nothing.
    pub fn reveal_secret(&mut self, update_idx: u64, secret: [u8; 32]) -> (result: Result<
        (),
        Error,
    >)
        requires
            old(self).secrets_well_formed(),
        ensures
            final(self).secrets_well_formed(),
            final(self).same_but_secrets(*old(self)),
            old(self).well_formed() ==> final(self).well_formed(),
            match old(self).spec_reveal_secret(update_idx, secret@) {
                Ok(next) => result is Ok && secret_slots(final(self).counter_party_secrets)
                    == next && final(self).knows_revocation_secret(update_idx),
                Err(error) => result == Err::<(), Error>(error) && *final(self) == *old(self),
            },
    {
        if update_idx > self.update_idx {
            return Err(Error::InvalidUpdateIndex);
        }
        proof {
            if self.spec_reveal_secret(update_idx, secret@) is Ok {
                lemma_reveal_keeps_well_formed(
                    secret_slots(self.counter_party_secrets),
                    update_idx,
                    secret@,
                );
            }
        }
        reveal_secret(&mut self.counter_party_secrets, update_idx, secret)
    }

    /// Ends the closing on chain on what was seen there. `revocation_secret` is what the
    /// store of revocation secrets gave for the split transaction seen: with a secret the
    /// remote party is punished, without one its closing stands.
    pub fn resolve_closing(
        &mut self,
        observed: ClosingObservation,
        revocation_secret: Option<[u8; 32]>,
    ) -> (result: Result<(), Error>)
        ensures
            match old(self).spec_resolve_closing(observed, revocation_secret is Some) {
                Ok(next) => result is Ok && *final(self) == next,
                Err(error) => result == Err::<(), Error>(error) && *final(self) == *old(self),
            },
    {
        match &self.state {
            SubChannelState::Closing(_) => {
                self.state = match observed {
                    ClosingObservation::LocalClose => SubChannelState::OnChainClosed,
                    ClosingObservation::CounterClose { update_idx, punish_txid } => {
                        if revocation_secret.is_some() {
                            SubChannelState::ClosedPunished(punish_txid)
                        } else {
                            SubChannelState::CounterOnChainClosed
                        }
                    },
                };
                Ok(())
            },
            _ => Err(Error::InvalidState),
        }
    }

    /// Ends the closing on chain on what was seen there, after looking up the secret that
    /// revokes the split transaction seen. Where a transaction of the remote party was seen,
    /// the revocation secrets must have been revealed in turn.
    pub fn closing_confirmed(&mut self, observed: ClosingObservation) -> (result: Result<
        (),
        Error,
    >)
        requires
            observed is CounterClose ==> old(self).secrets_well_formed(),
        ensures
            match old(self).spec_resolve_closing(observed, old(self).knows_secret_against(observed)) {
                Ok(next) => result is Ok && *final(self) == next,
                Err(error) => result == Err::<(), Error>(error) && *final(self) == *old(self),
            },
    {
        let revocation_secret = match &observed {
            ClosingObservation::LocalClose => None,
            ClosingObservation::CounterClose { update_idx, punish_txid } => revealed_secret(
                &self.counter_party_secrets,
                *update_idx,
            ),
        };
        self.resolve_closing(observed, revocation_secret)
    }

    /// Applies an event to the sub channel. An event that the state does not allow, or whose
    /// message bears another update index than the sub channel, is refused and changes
    /// nothing. Where the event ends a closing off chain, the rollback information is handed
    /// out. An acceptance must name the funding outpoint of the channel.
    pub fn apply(&mut self, event: SubChannelEvent) -> (result: Result<
        Option<LnRollBackInfo>,
        Error,
    >)
        requires
            event matches SubChannelEvent::ClosingConfirmed(observed) && observed is CounterClose
                ==> old(self).secrets_well_formed(),
            event matches SubChannelEvent::Accept(info) ==> info.channel_details.funding_txo
                is Some,
        ensures
            match old(self).spec_apply(event) {
                Ok((next, ln_rollback)) => result == Ok::<Option<LnRollBackInfo>, Error>(
                    ln_rollback,
                ) && *final(self) == next,
                Err(error) => result == Err::<Option<LnRollBackInfo>, Error>(error)
                    && *final(self) == *old(self),
            },
    {
        let done = match event {
            SubChannelEvent::Accept(info) => self.accept(info),
            SubChannelEvent::Reject => self.reject(),
            SubChannelEvent::Confirm(info) => self.confirm(info),
            SubChannelEvent::Finalize { update_idx, counter_split_adaptor_signature } =>
                self.finalize(update_idx, counter_split_adaptor_signature),
            SubChannelEvent::Revoke => self.revoke(),
            SubChannelEvent::ForceClose { is_initiator } => self.force_close(is_initiator),
            SubChannelEvent::ClosingConfirmed(observed) => self.closing_confirmed(observed),
            SubChannelEvent::OfferClose { offer_balance, accept_balance, is_offer } =>
                self.offer_close(offer_balance, accept_balance, is_offer),
            SubChannelEvent::AcceptClose => self.accept_close(),
            SubChannelEvent::ConfirmClose { check_ln_secret } => self.confirm_close(
                check_ln_secret,
            ),
            SubChannelEvent::FinalizeClose => {
                return match self.finalize_close() {
                    Ok(ln_rollback) => Ok(Some(ln_rollback)),
                    Err(error) => Err(error),
                };
            },
        };
        match done {
            Ok(()) => Ok(None),
            Err(error) => Err(error),
        }
    }
}

} // verus!
