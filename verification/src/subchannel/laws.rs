//! What holds of every sub channel, whatever happens to it.

use vstd::prelude::*;

use crate::error::Error;
use crate::hashing::txid_bytes;
use crate::subchannel::ids::{
    lemma_u64_be_bytes_injective, spec_temporary_channel_id, temporary_channel_id_data,
    u64_be_bytes,
};
use crate::subchannel::secrets::{revealed_count, secret_slots};
use crate::subchannel::transitions::{
    AcceptInfo, ClosingObservation, OfferInfo, SubChannelEvent,
};
use crate::subchannel::{LnRollBackInfo, SubChannel, SubChannelState};
use crate::utils::{lemma_compute_id_keeps_temporary_id, neutral_txid, spec_compute_id};

verus! {

/// What is hashed into a temporary identifier has 41 bytes and tells the channel, the update
/// index and the index of the DLC channel apart: two inputs that differ in one of them are
/// never hashed from the same bytes.
pub proof fn lemma_temporary_channel_id_data_injective(
    first_channel_id: Seq<u8>,
    first_update_idx: u64,
    first_channel_index: u8,
    second_channel_id: Seq<u8>,
    second_update_idx: u64,
    second_channel_index: u8,
)
    requires
        first_channel_id.len() == 32,
        second_channel_id.len() == 32,
    ensures
        temporary_channel_id_data(first_channel_id, first_update_idx, first_channel_index).len()
            == 41,
        temporary_channel_id_data(first_channel_id, first_update_idx, first_channel_index)
            == temporary_channel_id_data(
            second_channel_id,
            second_update_idx,
            second_channel_index,
        ) <==> first_channel_id == second_channel_id && first_update_idx == second_update_idx
            && first_channel_index == second_channel_index,
{
    let a = temporary_channel_id_data(first_channel_id, first_update_idx, first_channel_index);
    let b = temporary_channel_id_data(second_channel_id, second_update_idx, second_channel_index);
    if a == b {
        assert forall|i: int| 0 <= i < 32 implies first_channel_id[i] == second_channel_id[i] by {
            assert(a[i] == first_channel_id[i]);
            assert(b[i] == second_channel_id[i]);
        }
        assert(first_channel_id =~= second_channel_id);
        let x = u64_be_bytes(first_update_idx);
        let y = u64_be_bytes(second_update_idx);
        assert forall|k: int| 0 <= k < 8 implies x[k] == y[k] by {
            assert(a[32 + k] == x[k]);
            assert(b[32 + k] == y[k]);
        }
        assert(x =~= y);
        lemma_u64_be_bytes_injective(first_update_idx, second_update_idx);
        assert(a[40] == first_channel_index);
        assert(b[40] == second_channel_index);
    }
}

/// While a sub channel is only offered, the identifier of each of its DLC channels is the
/// temporary identifier.
pub proof fn lemma_offered_channel_id(sub_channel: SubChannel, index: u8)
    requires
        sub_channel.state is Offered,
    ensures
        sub_channel.dlc_channel_id(index) == Some(
            spec_temporary_channel_id(sub_channel.channel_id@, sub_channel.update_idx, index),
        ),
{
}

/// Once a sub channel has a split transaction and is not being closed, the identifier of
/// each of its DLC channels is computed from the id of the split transaction, the index of
/// the DLC channel plus one and the temporary identifier. It is not the temporary identifier
/// unless the bytes of the transaction id are those of `neutral_txid`.
pub proof fn lemma_split_channel_id(sub_channel: SubChannel, index: u8)
    requires
        sub_channel.state is Accepted || sub_channel.state is Confirmed || sub_channel.state
            is Signed || sub_channel.state is Finalized,
    ensures
        sub_channel.state.split_transaction() is Some,
        sub_channel.dlc_channel_id(index) == Some(
            spec_compute_id(
                txid_bytes(sub_channel.state.split_transaction()->Some_0),
                (index + 1) as u16,
                spec_temporary_channel_id(sub_channel.channel_id@, sub_channel.update_idx, index),
            ),
        ),
        (exists|k: int|
            0 <= k < 32 && txid_bytes(sub_channel.state.split_transaction()->Some_0)[k]
                != #[trigger] neutral_txid((index + 1) as u16)[k])
            ==> sub_channel.dlc_channel_id(index) != Some(
            spec_temporary_channel_id(sub_channel.channel_id@, sub_channel.update_idx, index),
        ),
{
    lemma_compute_id_keeps_temporary_id(
        txid_bytes(sub_channel.state.split_transaction()->Some_0),
        (index + 1) as u16,
        spec_temporary_channel_id(sub_channel.channel_id@, sub_channel.update_idx, index),
    );
}

/// A DLC channel can be addressed exactly while the sub channel is offered, split or being
/// closed with a split transaction at hand.
pub proof fn lemma_channel_id_states(sub_channel: SubChannel, index: u8)
    ensures
        sub_channel.dlc_channel_id(index) is Some <==> (sub_channel.state is Offered
            || sub_channel.state.split_transaction() is Some),
        sub_channel.dlc_channel_id(index) is None <==> (sub_channel.state is OnChainClosed
            || sub_channel.state is CounterOnChainClosed || sub_channel.state is OffChainClosed
            || sub_channel.state is ClosedPunished || sub_channel.state is Rejected),
{
}

/// The states that the peers announce when they reconnect are nine, each with a byte of its
/// own from 1 to 9; the five others have none.
pub proof fn lemma_reestablish_flags(first: SubChannelState, second: SubChannelState)
    ensures
        first.reestablish_flag() matches Some(flag) ==> 1 <= flag <= 9,
        first.reestablish_flag() is None <==> (first is Closing || first is OnChainClosed || first
            is CounterOnChainClosed || first is ClosedPunished || first is Rejected),
        first.reestablish_flag() is Some && first.reestablish_flag() == second.reestablish_flag()
            ==> state_kind(first) == state_kind(second),
{
}

/// The number of a state among the fourteen, in the order of their declaration.
pub open spec fn state_kind(state: SubChannelState) -> int {
    match state {
        SubChannelState::Offered(_) => 0,
        SubChannelState::Accepted(_) => 1,
        SubChannelState::Confirmed(_) => 2,
        SubChannelState::Finalized(_) => 3,
        SubChannelState::Signed(_) => 4,
        SubChannelState::Closing(_) => 5,
        SubChannelState::OnChainClosed => 6,
        SubChannelState::CounterOnChainClosed => 7,
        SubChannelState::CloseOffered(_) => 8,
        SubChannelState::CloseAccepted(_) => 9,
        SubChannelState::CloseConfirmed(_) => 10,
        SubChannelState::OffChainClosed => 11,
        SubChannelState::ClosedPunished(_) => 12,
        SubChannelState::Rejected => 13,
    }
}

/// Whether `state` is the one from which `event` leads on.
pub open spec fn starts_from(event: SubChannelEvent, state: SubChannelState) -> bool {
    match event {
        SubChannelEvent::Accept(_) => state is Offered,
        SubChannelEvent::Reject => state is Offered,
        SubChannelEvent::Confirm(_) => state is Accepted,
        SubChannelEvent::Finalize { .. } => state is Confirmed,
        SubChannelEvent::Revoke => state is Finalized,
        SubChannelEvent::ForceClose { .. } => state is Signed,
        SubChannelEvent::ClosingConfirmed(_) => state is Closing,
        SubChannelEvent::OfferClose { .. } => state is Signed,
        SubChannelEvent::AcceptClose => state is CloseOffered,
        SubChannelEvent::ConfirmClose { .. } => state is CloseAccepted,
        SubChannelEvent::FinalizeClose => state is CloseConfirmed,
    }
}

/// The update index that the message of an event bears, where it is one of the messages
/// that accept or sign a split.
pub open spec fn message_update_idx(event: SubChannelEvent) -> Option<u64> {
    match event {
        SubChannelEvent::Accept(info) => Some(info.update_idx),
        SubChannelEvent::Confirm(info) => Some(info.update_idx),
        SubChannelEvent::Finalize { update_idx, .. } => Some(update_idx),
        _ => None,
    }
}

/// Whether an acceptance would leave the seed or the remote base points unknown.
pub open spec fn leaves_points_unknown(sub_channel: SubChannel, event: SubChannelEvent) -> bool {
    event matches SubChannelEvent::Accept(info) && ((sub_channel.per_split_seed is None
        && info.per_split_seed is None) || (sub_channel.counter_base_points is None
        && info.counter_base_points is None))
}

/// When an event is refused, and why: in a state other than the one it leads on from, for
/// the state; in that state, for an update index that is not that of the sub channel;
/// then, for what is missing. Every other event is applied.
pub proof fn lemma_refusals(sub_channel: SubChannel, event: SubChannelEvent)
    ensures
        sub_channel.spec_apply(event) == Err::<(SubChannel, Option<LnRollBackInfo>), Error>(
            Error::InvalidState,
        ) <==> !starts_from(event, sub_channel.state),
        sub_channel.spec_apply(event) == Err::<(SubChannel, Option<LnRollBackInfo>), Error>(
            Error::InvalidUpdateIndex,
        ) <==> starts_from(event, sub_channel.state) && message_update_idx(event) is Some
            && message_update_idx(event) != Some(sub_channel.update_idx),
        sub_channel.spec_apply(event) == Err::<(SubChannel, Option<LnRollBackInfo>), Error>(
            Error::MissingArtifact,
        ) <==> starts_from(event, sub_channel.state) && message_update_idx(event) == Some(
            sub_channel.update_idx,
        ) && leaves_points_unknown(sub_channel, event),
        sub_channel.spec_apply(event) is Ok <==> starts_from(event, sub_channel.state) && (
        message_update_idx(event) is Some ==> message_update_idx(event) == Some(
            sub_channel.update_idx,
        )) && !leaves_points_unknown(sub_channel, event),
{
}

/// What only a confirmed sub channel can do is refused to a signed one: the adaptor
/// signature of the remote party is taken in once, on the way from confirmed to finalized.
pub proof fn lemma_signed_refuses_finalize(sub_channel: SubChannel, event: SubChannelEvent)
    requires
        sub_channel.state is Signed,
        event is Finalize,
    ensures
        sub_channel.spec_apply(event) == Err::<(SubChannel, Option<LnRollBackInfo>), Error>(
            Error::InvalidState,
        ),
{
}

/// A message that accepts or signs a split is refused when it bears an update index below
/// that of the sub channel.
pub proof fn lemma_stale_update_idx_refused(sub_channel: SubChannel, event: SubChannelEvent)
    requires
        message_update_idx(event) matches Some(update_idx) && update_idx
            < sub_channel.update_idx,
    ensures
        sub_channel.spec_apply(event) is Err,
        starts_from(event, sub_channel.state) ==> sub_channel.spec_apply(event) == Err::<
            (SubChannel, Option<LnRollBackInfo>),
            Error,
        >(Error::InvalidUpdateIndex),
{
}

/// No event leads on from a sub channel that is closed or rejected.
pub proof fn lemma_closed_is_final(sub_channel: SubChannel, event: SubChannelEvent)
    requires
        sub_channel.state is OnChainClosed || sub_channel.state is CounterOnChainClosed
            || sub_channel.state is OffChainClosed || sub_channel.state is ClosedPunished
            || sub_channel.state is Rejected,
    ensures
        sub_channel.spec_apply(event) == Err::<(SubChannel, Option<LnRollBackInfo>), Error>(
            Error::InvalidState,
        ),
{
}

/// An event changes the state of a sub channel and, on acceptance, completes the seed and
/// the base points of the remote party. The channel, the parties, the update index, which
/// therefore never decreases, and the revocation secrets stay as they are.
pub proof fn lemma_apply_keeps_channel(sub_channel: SubChannel, event: SubChannelEvent)
    requires
        sub_channel.spec_apply(event) is Ok,
    ensures
        ({
            let next = sub_channel.spec_apply(event)->Ok_0.0;
            &&& next.channel_id == sub_channel.channel_id
            &&& next.counter_party == sub_channel.counter_party
            &&& next.update_idx == sub_channel.update_idx
            &&& next.fee_rate_per_vb == sub_channel.fee_rate_per_vb
            &&& next.own_base_points == sub_channel.own_base_points
            &&& next.fund_value_satoshis == sub_channel.fund_value_satoshis
            &&& next.original_funding_redeemscript == sub_channel.original_funding_redeemscript
            &&& next.is_offer == sub_channel.is_offer
            &&& next.own_fund_pk == sub_channel.own_fund_pk
            &&& next.counter_fund_pk == sub_channel.counter_fund_pk
            &&& next.counter_party_secrets == sub_channel.counter_party_secrets
            &&& revealed_count(secret_slots(next.counter_party_secrets)) == revealed_count(
                secret_slots(sub_channel.counter_party_secrets),
            )
            &&& sub_channel.per_split_seed is Some ==> next.per_split_seed
                == sub_channel.per_split_seed
            &&& sub_channel.counter_base_points is Some ==> next.counter_base_points
                == sub_channel.counter_base_points
            &&& !(event is Accept) ==> next.per_split_seed == sub_channel.per_split_seed
                && next.counter_base_points == sub_channel.counter_base_points
        }),
{
}

/// A new split can be offered only once the last one was closed off chain, and only with the
/// update index that follows the one of the sub channel: an index that is lower or the same
/// is refused. The new split takes its index, so the update index of a sub channel only
/// grows. The channel, the parties, what is known of their points and the revocation secrets
/// stay.
pub proof fn lemma_offer_again(sub_channel: SubChannel, info: OfferInfo)
    ensures
        sub_channel.spec_offer_again(info) is Ok <==> sub_channel.state is OffChainClosed
            && info.update_idx == sub_channel.update_idx + 1,
        sub_channel.state is OffChainClosed && info.update_idx <= sub_channel.update_idx
            ==> sub_channel.spec_offer_again(info) == Err::<SubChannel, Error>(
            Error::InvalidUpdateIndex,
        ),
        !(sub_channel.state is OffChainClosed) ==> sub_channel.spec_offer_again(info) == Err::<
            SubChannel,
            Error,
        >(Error::InvalidState),
        sub_channel.spec_offer_again(info) matches Ok(next) ==> {
            &&& next.state is Offered
            &&& next.update_idx == info.update_idx
            &&& next.update_idx > sub_channel.update_idx
            &&& next.is_offer == info.is_offer
            &&& next.channel_id == sub_channel.channel_id
            &&& next.counter_party == sub_channel.counter_party
            &&& next.per_split_seed == sub_channel.per_split_seed
            &&& next.counter_base_points == sub_channel.counter_base_points
            &&& next.own_base_points == sub_channel.own_base_points
            &&& next.counter_party_secrets == sub_channel.counter_party_secrets
            &&& sub_channel.well_formed() ==> next.well_formed()
        },
{
}

/// A well-formed sub channel stays well formed under every event.
pub proof fn lemma_apply_keeps_well_formed(sub_channel: SubChannel, event: SubChannelEvent)
    requires
        sub_channel.well_formed(),
        sub_channel.spec_apply(event) is Ok,
    ensures
        sub_channel.spec_apply(event)->Ok_0.0.well_formed(),
{
}

/// Acceptance captures the rollback information from the details of the channel as they
/// are then: its value, the balance of the local party and the funding outpoint.
pub proof fn lemma_accept_captures_rollback(sub_channel: SubChannel, info: AcceptInfo)
    requires
        sub_channel.spec_accept(info) is Ok,
    ensures
        sub_channel.spec_accept(info)->Ok_0.state is Accepted,
        sub_channel.spec_accept(info)->Ok_0.state.rollback_info() == Some(
            LnRollBackInfo {
                channel_value_satoshis: info.channel_details.channel_value_satoshis,
                value_to_self_msat: info.channel_details.balance_msat,
                funding_outpoint: info.channel_details.funding_txo->Some_0,
            },
        ),
{
}

/// The rollback information captured on acceptance is never changed: as long as the state
/// carries one it is the same, and the end of a closing off chain hands out that one.
pub proof fn lemma_rollback_kept(sub_channel: SubChannel, event: SubChannelEvent)
    requires
        sub_channel.state.rollback_agrees(),
        sub_channel.state.rollback_info() is Some,
        sub_channel.spec_apply(event) is Ok,
    ensures
        ({
            let (next, handed_out) = sub_channel.spec_apply(event)->Ok_0;
            &&& next.state.rollback_info() is Some ==> next.state.rollback_info()
                == sub_channel.state.rollback_info()
            &&& handed_out is Some <==> event is FinalizeClose
            &&& handed_out is Some ==> handed_out == sub_channel.state.rollback_info()
                && next.state is OffChainClosed
        }),
{
}

/// The remote party is punished exactly when a split transaction of its own is confirmed
/// while the sub channel is being closed and the secret that revokes it was revealed.
pub proof fn lemma_punished(sub_channel: SubChannel, event: SubChannelEvent)
    requires
        sub_channel.spec_apply(event) is Ok,
    ensures
        sub_channel.spec_apply(event)->Ok_0.0.state is ClosedPunished <==> (
        event matches SubChannelEvent::ClosingConfirmed(
            ClosingObservation::CounterClose { update_idx, punish_txid },
        ) && sub_channel.knows_revocation_secret(update_idx)
            && sub_channel.spec_apply(event)->Ok_0.0.state == SubChannelState::ClosedPunished(
            punish_txid,
        )),
{
}

} // verus!
