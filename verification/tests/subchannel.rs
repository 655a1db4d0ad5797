use bitcoin::{PackedLockTime, Script, Transaction, TxOut, Txid};
use dlc_manager::channel::party_points::PartyBasePoints;
use dlc_manager::error::Error;
use dlc_manager::subchannel::secrets::revealed_secrets;
use dlc_manager::subchannel::transitions::{
    AcceptInfo, ClosingObservation, ConfirmInfo, OfferInfo, SubChannelEvent,
};
use dlc_manager::subchannel::{
    generate_temporary_channel_id, ChannelDetails, LnRollBackInfo, ReestablishFlag, SplitTx,
    SubChannel, SubChannelState,
};
use dlc_manager::utils::compute_id;
use lightning::chain::transaction::OutPoint;
use lightning::ln::chan_utils::build_commitment_secret;
use secp256k1_zkp::ecdsa::Signature;
use secp256k1_zkp::{EcdsaAdaptorSignature, Message, PublicKey, Secp256k1, SecretKey};

const UPDATE_IDX: u64 = 7;

fn secret_key(n: u8) -> SecretKey {
    SecretKey::from_slice(&[n; 32]).unwrap()
}

fn public_key(n: u8) -> PublicKey {
    PublicKey::from_secret_key(&Secp256k1::new(), &secret_key(n))
}

fn signature(n: u8) -> Signature {
    let message = Message::from_slice(&[n; 32]).unwrap();
    Secp256k1::new().sign_ecdsa(&message, &secret_key(n))
}

fn adaptor_signature(n: u8) -> EcdsaAdaptorSignature {
    EcdsaAdaptorSignature::from_slice(&[n; 162]).unwrap()
}

fn txid(n: u8) -> Txid {
    bitcoin::hashes::Hash::from_inner([n; 32])
}

fn transaction(value: u64) -> Transaction {
    Transaction {
        version: 2,
        lock_time: PackedLockTime(0),
        input: vec![],
        output: vec![TxOut {
            value,
            script_pubkey: Script::new(),
        }],
    }
}

fn transaction_id(transaction: &Transaction) -> [u8; 32] {
    bitcoin::hashes::Hash::into_inner(transaction.txid())
}

fn base_points(n: u8) -> PartyBasePoints {
    PartyBasePoints {
        own_basepoint: public_key(n),
        revocation_basepoint: public_key(n + 1),
        publish_basepoint: public_key(n + 2),
    }
}

fn channel_id() -> [u8; 32] {
    let mut id = [0u8; 32];
    for (i, byte) in id.iter_mut().enumerate() {
        *byte = (i * 7) as u8;
    }
    id
}

fn channel_details() -> ChannelDetails {
    ChannelDetails {
        channel_id: channel_id(),
        channel_value_satoshis: 1_000_000,
        balance_msat: 400_000_000,
        funding_txo: Some(OutPoint {
            txid: txid(0x11),
            index: 3,
        }),
    }
}

fn new_offered() -> SubChannel {
    SubChannel::new_offered(
        channel_id(),
        public_key(1),
        public_key(2),
        public_key(3),
        4,
        base_points(10),
        1_000_000,
        Script::new(),
        public_key(5),
        public_key(6),
    )
}

fn new_received() -> SubChannel {
    SubChannel::new_received(
        channel_id(),
        public_key(1),
        public_key(2),
        4,
        base_points(10),
        base_points(20),
        1_000_000,
        Script::new(),
        public_key(5),
        public_key(6),
    )
}

fn offered() -> SubChannel {
    let mut sub_channel = new_offered();
    sub_channel.update_idx = UPDATE_IDX;
    sub_channel
}

fn received() -> SubChannel {
    let mut sub_channel = new_received();
    sub_channel.update_idx = UPDATE_IDX;
    sub_channel
}

fn split_tx() -> SplitTx {
    SplitTx {
        transaction: transaction(5000),
        output_script: Script::new(),
    }
}

fn accept_info() -> AcceptInfo {
    AcceptInfo {
        update_idx: UPDATE_IDX,
        counter_per_split_point: public_key(30),
        counter_base_points: Some(base_points(20)),
        per_split_seed: None,
        split_tx: split_tx(),
        ln_glue_transaction: transaction(6000),
        channel_details: channel_details(),
        commitment_transactions: vec![transaction(7000), transaction(8000)],
    }
}

fn confirm_info() -> ConfirmInfo {
    ConfirmInfo {
        update_idx: UPDATE_IDX,
        own_split_adaptor_signature: adaptor_signature(1),
        counter_glue_signature: signature(2),
        prev_commitment_secret: secret_key(3),
        next_per_commitment_point: public_key(4),
    }
}

fn accepted() -> SubChannel {
    let mut sub_channel = offered();
    sub_channel.accept(accept_info()).unwrap();
    sub_channel
}

fn confirmed() -> SubChannel {
    let mut sub_channel = accepted();
    sub_channel.confirm(confirm_info()).unwrap();
    sub_channel
}

fn finalized() -> SubChannel {
    let mut sub_channel = confirmed();
    sub_channel
        .finalize(UPDATE_IDX, adaptor_signature(9))
        .unwrap();
    sub_channel
}

fn signed() -> SubChannel {
    let mut sub_channel = finalized();
    sub_channel.revoke().unwrap();
    sub_channel
}

fn closing() -> SubChannel {
    let mut sub_channel = signed();
    sub_channel.force_close(true).unwrap();
    sub_channel
}

fn close_offered() -> SubChannel {
    let mut sub_channel = signed();
    sub_channel.offer_close(600, 400, true).unwrap();
    sub_channel
}

fn close_accepted() -> SubChannel {
    let mut sub_channel = close_offered();
    sub_channel.accept_close().unwrap();
    sub_channel
}

fn close_confirmed() -> SubChannel {
    let mut sub_channel = close_accepted();
    sub_channel.confirm_close(true).unwrap();
    sub_channel
}

fn with_state(state: SubChannelState) -> SubChannel {
    let mut sub_channel = offered();
    sub_channel.state = state;
    sub_channel
}

fn every_state() -> Vec<SubChannel> {
    vec![
        offered(),
        accepted(),
        confirmed(),
        finalized(),
        signed(),
        closing(),
        with_state(SubChannelState::OnChainClosed),
        with_state(SubChannelState::CounterOnChainClosed),
        close_offered(),
        close_accepted(),
        close_confirmed(),
        with_state(SubChannelState::OffChainClosed),
        with_state(SubChannelState::ClosedPunished(txid(1))),
        with_state(SubChannelState::Rejected),
    ]
}

fn secret_of(update_idx: u64) -> [u8; 32] {
    build_commitment_secret(&[0x42; 32], (1 << 48) - 1 - update_idx)
}

fn expected_rollback() -> LnRollBackInfo {
    LnRollBackInfo {
        channel_value_satoshis: 1_000_000,
        value_to_self_msat: 400_000_000,
        funding_outpoint: OutPoint {
            txid: txid(0x11),
            index: 3,
        },
    }
}

#[test]
fn new_sub_channels_are_offered() {
    let sub_channel = new_offered();
    assert_eq!(sub_channel.channel_id, channel_id());
    assert_eq!(sub_channel.counter_party, public_key(1));
    assert_eq!(sub_channel.update_idx, 0);
    assert!(matches!(&sub_channel.state, SubChannelState::Offered(o) if o.per_split_point == public_key(2)));
    assert_eq!(sub_channel.per_split_seed, Some(public_key(3)));
    assert_eq!(sub_channel.fee_rate_per_vb, 4);
    assert_eq!(sub_channel.own_base_points, base_points(10));
    assert_eq!(sub_channel.counter_base_points, None);
    assert_eq!(sub_channel.fund_value_satoshis, 1_000_000);
    assert!(sub_channel.is_offer);
    assert_eq!(sub_channel.own_fund_pk, public_key(5));
    assert_eq!(sub_channel.counter_fund_pk, public_key(6));
    assert_eq!(revealed_secrets(&sub_channel.counter_party_secrets), 0);

    let sub_channel = new_received();
    assert_eq!(sub_channel.update_idx, 0);
    assert!(matches!(&sub_channel.state, SubChannelState::Offered(o) if o.per_split_point == public_key(2)));
    assert_eq!(sub_channel.per_split_seed, None);
    assert_eq!(sub_channel.counter_base_points, Some(base_points(20)));
    assert!(!sub_channel.is_offer);
    assert_eq!(revealed_secrets(&sub_channel.counter_party_secrets), 0);
}

#[test]
fn first_split_runs_under_update_index_zero() {
    let mut sub_channel = new_offered();
    let mut info = accept_info();
    info.update_idx = 0;
    assert_eq!(sub_channel.accept(info), Ok(()));
    assert_eq!(
        sub_channel.get_dlc_channel_id(0),
        Some(compute_id(
            transaction_id(&split_tx().transaction),
            1,
            &generate_temporary_channel_id(channel_id(), 0, 0)
        ))
    );
    let mut sub_channel = new_offered();
    assert_eq!(sub_channel.accept(accept_info()), Err(Error::InvalidUpdateIndex));
}

#[test]
fn offered_channel_id_is_the_temporary_id() {
    let sub_channel = offered();
    for index in [0u8, 1, 2, 255] {
        assert_eq!(
            sub_channel.get_dlc_channel_id(index),
            Some(generate_temporary_channel_id(channel_id(), UPDATE_IDX, index))
        );
    }
}

#[test]
fn split_channel_id_is_computed_from_the_split_transaction() {
    let split_txid = transaction_id(&split_tx().transaction);
    assert_ne!(split_txid, transaction_id(&transaction(6000)));
    for sub_channel in [accepted(), confirmed(), finalized(), signed()] {
        for index in [0u8, 1, 254, 255] {
            let temporary_id = generate_temporary_channel_id(channel_id(), UPDATE_IDX, index);
            let id = sub_channel.get_dlc_channel_id(index).unwrap();
            assert_eq!(id, compute_id(split_txid, index as u16 + 1, &temporary_id));
            assert_ne!(id, temporary_id);
            assert_eq!(offered().get_dlc_channel_id(index), Some(temporary_id));
        }
    }
}

#[test]
fn closing_channel_id_is_that_of_the_signed_sub_channel() {
    let split_txid = transaction_id(&split_tx().transaction);
    for sub_channel in [closing(), close_offered(), close_accepted(), close_confirmed()] {
        for index in [0u8, 9] {
            let temporary_id = generate_temporary_channel_id(channel_id(), UPDATE_IDX, index);
            assert_eq!(
                sub_channel.get_dlc_channel_id(index),
                Some(compute_id(split_txid, index as u16 + 1, &temporary_id))
            );
            assert_eq!(
                sub_channel.get_dlc_channel_id(index),
                signed().get_dlc_channel_id(index)
            );
        }
    }
}

#[test]
fn closed_sub_channels_have_no_channel_id() {
    for state in [
        SubChannelState::OnChainClosed,
        SubChannelState::CounterOnChainClosed,
        SubChannelState::OffChainClosed,
        SubChannelState::ClosedPunished(txid(1)),
        SubChannelState::Rejected,
    ] {
        let sub_channel = with_state(state);
        assert_eq!(sub_channel.get_dlc_channel_id(0), None);
        assert_eq!(sub_channel.get_dlc_channel_id(200), None);
        assert_eq!(
            sub_channel.expect_dlc_channel_id(0),
            Err(Error::UnknownChannel)
        );
    }
}

#[test]
fn expected_channel_id_is_the_channel_id() {
    for sub_channel in [offered(), accepted(), signed(), closing()] {
        assert_eq!(
            sub_channel.expect_dlc_channel_id(3),
            Ok(sub_channel.get_dlc_channel_id(3).unwrap())
        );
    }
}

#[test]
fn state_payload_channel_ids() {
    let split_txid = transaction_id(&split_tx().transaction);
    let temporary_id = [0x33u8; 32];
    let expected = compute_id(split_txid, 5, &temporary_id);
    match accepted().state {
        SubChannelState::Accepted(a) => assert_eq!(a.get_dlc_channel_id(temporary_id, 4), expected),
        _ => panic!("not accepted"),
    }
    match confirmed().state {
        SubChannelState::Confirmed(c) => assert_eq!(c.get_dlc_channel_id(temporary_id, 4), expected),
        _ => panic!("not confirmed"),
    }
    match signed().state {
        SubChannelState::Signed(s) => {
            assert_eq!(s.get_dlc_channel_id(temporary_id, 4), expected);
            assert_eq!(
                s.get_dlc_channel_id(temporary_id, 255),
                compute_id(split_txid, 256, &temporary_id)
            );
        }
        _ => panic!("not signed"),
    }
}

#[test]
fn reestablish_flags_of_all_states() {
    let flags: Vec<Option<u8>> = every_state()
        .iter()
        .map(|sub_channel| sub_channel.get_reestablish_flag())
        .collect();
    assert_eq!(
        flags,
        vec![
            Some(1),
            Some(2),
            Some(3),
            Some(4),
            Some(5),
            None,
            None,
            None,
            Some(6),
            Some(7),
            Some(8),
            Some(9),
            None,
            None,
        ]
    );
}

#[test]
fn reestablish_flag_values() {
    assert_eq!(ReestablishFlag::Offered.value(), 1);
    assert_eq!(ReestablishFlag::Accepted.value(), 2);
    assert_eq!(ReestablishFlag::Confirmed.value(), 3);
    assert_eq!(ReestablishFlag::Finalized.value(), 4);
    assert_eq!(ReestablishFlag::Signed.value(), 5);
    assert_eq!(ReestablishFlag::CloseOffered.value(), 6);
    assert_eq!(ReestablishFlag::CloseAccepted.value(), 7);
    assert_eq!(ReestablishFlag::CloseConfirmed.value(), 8);
    assert_eq!(ReestablishFlag::OffChainClosed.value(), 9);
}

#[test]
fn rollback_info_from_channel_details() {
    assert_eq!(LnRollBackInfo::from(&channel_details()), expected_rollback());
    let details = ChannelDetails {
        channel_id: [0; 32],
        channel_value_satoshis: 1,
        balance_msat: 2,
        funding_txo: Some(OutPoint {
            txid: txid(9),
            index: 0,
        }),
    };
    let info = LnRollBackInfo::from(&details);
    assert_eq!(info.channel_value_satoshis, 1);
    assert_eq!(info.value_to_self_msat, 2);
    assert_eq!(info.funding_outpoint.txid, txid(9));
    assert_eq!(info.funding_outpoint.index, 0);
}

#[test]
fn accept_captures_the_channel_details() {
    let sub_channel = accepted();
    match &sub_channel.state {
        SubChannelState::Accepted(a) => {
            assert_eq!(a.ln_rollback, expected_rollback());
            assert_eq!(a.ln_rollback.channel_value_satoshis, 1_000_000);
            assert_eq!(a.ln_rollback.value_to_self_msat, 400_000_000);
            assert_eq!(
                a.ln_rollback.funding_outpoint,
                OutPoint {
                    txid: txid(0x11),
                    index: 3
                }
            );
            assert_eq!(a.offer_per_split_point, public_key(2));
            assert_eq!(a.accept_per_split_point, public_key(30));
            assert_eq!(a.split_tx, split_tx());
            assert_eq!(a.ln_glue_transaction, transaction(6000));
            assert_eq!(
                a.commitment_transactions,
                vec![transaction(7000), transaction(8000)]
            );
        }
        _ => panic!("not accepted"),
    }
    assert_eq!(sub_channel.counter_base_points, Some(base_points(20)));
    assert_eq!(sub_channel.per_split_seed, Some(public_key(3)));
    assert_eq!(sub_channel.update_idx, UPDATE_IDX);
}

#[test]
fn accept_on_the_accepting_side() {
    let mut sub_channel = received();
    let mut info = accept_info();
    info.counter_base_points = None;
    info.per_split_seed = Some(public_key(40));
    assert_eq!(sub_channel.accept(info), Ok(()));
    match &sub_channel.state {
        SubChannelState::Accepted(a) => {
            assert_eq!(a.offer_per_split_point, public_key(30));
            assert_eq!(a.accept_per_split_point, public_key(2));
        }
        _ => panic!("not accepted"),
    }
    assert_eq!(sub_channel.per_split_seed, Some(public_key(40)));
    assert_eq!(sub_channel.counter_base_points, Some(base_points(20)));
    sub_channel.confirm(confirm_info()).unwrap();
    match &sub_channel.state {
        SubChannelState::Confirmed(c) => {
            assert_eq!(c.own_per_split_point, public_key(2));
            assert_eq!(c.counter_per_split_point, public_key(30));
        }
        _ => panic!("not confirmed"),
    }
}

#[test]
fn accept_keeps_what_is_known() {
    let mut sub_channel = offered();
    let mut info = accept_info();
    info.per_split_seed = Some(public_key(41));
    sub_channel.accept(info).unwrap();
    assert_eq!(sub_channel.per_split_seed, Some(public_key(3)));
}

#[test]
fn accept_without_the_missing_points_is_refused() {
    let mut sub_channel = offered();
    let mut info = accept_info();
    info.counter_base_points = None;
    assert_eq!(sub_channel.accept(info), Err(Error::MissingArtifact));
    assert!(sub_channel == offered());

    let mut sub_channel = received();
    assert_eq!(sub_channel.accept(accept_info()), Err(Error::MissingArtifact));
    assert!(sub_channel == received());
}

#[test]
fn confirm_takes_the_signatures_in() {
    let sub_channel = confirmed();
    match &sub_channel.state {
        SubChannelState::Confirmed(c) => {
            assert_eq!(c.own_per_split_point, public_key(2));
            assert_eq!(c.counter_per_split_point, public_key(30));
            assert_eq!(c.own_split_adaptor_signature, adaptor_signature(1));
            assert_eq!(c.counter_glue_signature, signature(2));
            assert_eq!(c.prev_commitment_secret, secret_key(3));
            assert_eq!(c.next_per_commitment_point, public_key(4));
            assert_eq!(c.split_tx, split_tx());
            assert_eq!(c.ln_glue_transaction, transaction(6000));
            assert_eq!(c.ln_rollback, expected_rollback());
            assert_eq!(
                c.commitment_transactions,
                vec![transaction(7000), transaction(8000)]
            );
        }
        _ => panic!("not confirmed"),
    }
}

#[test]
fn finalize_and_revoke_lead_to_signed() {
    let sub_channel = finalized();
    let payload = match &sub_channel.state {
        SubChannelState::Finalized(s) => s.clone(),
        _ => panic!("not finalized"),
    };
    assert_eq!(payload.own_per_split_point, public_key(2));
    assert_eq!(payload.counter_per_split_point, public_key(30));
    assert_eq!(payload.own_split_adaptor_signature, adaptor_signature(1));
    assert_eq!(payload.counter_split_adaptor_signature, adaptor_signature(9));
    assert_eq!(payload.split_tx, split_tx());
    assert_eq!(payload.ln_glue_transaction, transaction(6000));
    assert_eq!(payload.counter_glue_signature, signature(2));
    assert_eq!(payload.ln_rollback, expected_rollback());
    assert_eq!(signed().state, SubChannelState::Signed(payload));
}

#[test]
fn signed_refuses_what_only_confirmed_can_do() {
    let mut sub_channel = signed();
    assert_eq!(
        sub_channel.finalize(UPDATE_IDX, adaptor_signature(9)),
        Err(Error::InvalidState)
    );
    assert!(sub_channel == signed());
    assert_eq!(
        sub_channel.apply(SubChannelEvent::Finalize {
            update_idx: UPDATE_IDX,
            counter_split_adaptor_signature: adaptor_signature(9),
        }),
        Err(Error::InvalidState)
    );
    assert!(sub_channel == signed());
    assert_eq!(sub_channel.confirm(confirm_info()), Err(Error::InvalidState));
    assert_eq!(sub_channel.revoke(), Err(Error::InvalidState));
    assert!(sub_channel == signed());
}

#[test]
fn stale_update_index_is_refused() {
    let mut sub_channel = offered();
    let mut info = accept_info();
    info.update_idx = UPDATE_IDX - 1;
    assert_eq!(sub_channel.accept(info), Err(Error::InvalidUpdateIndex));
    assert!(sub_channel == offered());
    let mut info = accept_info();
    info.update_idx = 0;
    assert_eq!(sub_channel.accept(info), Err(Error::InvalidUpdateIndex));

    let mut sub_channel = accepted();
    let mut info = confirm_info();
    info.update_idx = UPDATE_IDX - 1;
    assert_eq!(sub_channel.confirm(info), Err(Error::InvalidUpdateIndex));
    assert!(sub_channel == accepted());

    let mut sub_channel = confirmed();
    assert_eq!(
        sub_channel.finalize(UPDATE_IDX - 1, adaptor_signature(9)),
        Err(Error::InvalidUpdateIndex)
    );
    assert!(sub_channel == confirmed());
}

#[test]
fn other_update_index_is_refused() {
    let mut sub_channel = offered();
    let mut info = accept_info();
    info.update_idx = UPDATE_IDX + 1;
    assert_eq!(sub_channel.accept(info), Err(Error::InvalidUpdateIndex));
    let mut sub_channel = confirmed();
    assert_eq!(
        sub_channel.finalize(u64::MAX, adaptor_signature(9)),
        Err(Error::InvalidUpdateIndex)
    );
    assert!(sub_channel == confirmed());
}

#[test]
fn wrong_state_is_reported_before_the_update_index() {
    let mut sub_channel = signed();
    let mut info = accept_info();
    info.update_idx = 0;
    assert_eq!(sub_channel.accept(info), Err(Error::InvalidState));
}

#[test]
fn update_index_never_changes() {
    for sub_channel in every_state() {
        assert_eq!(sub_channel.update_idx, UPDATE_IDX);
        assert_eq!(sub_channel.channel_id, channel_id());
    }
}

#[test]
fn reject_ends_an_offer() {
    let mut sub_channel = offered();
    assert_eq!(sub_channel.reject(), Ok(()));
    assert_eq!(sub_channel.state, SubChannelState::Rejected);
    assert_eq!(sub_channel.reject(), Err(Error::InvalidState));
    let mut sub_channel = accepted();
    assert_eq!(sub_channel.reject(), Err(Error::InvalidState));
    assert!(sub_channel == accepted());
}

#[test]
fn steps_are_refused_in_every_other_state() {
    let states = every_state();
    for (kind, start) in states.iter().enumerate() {
        let mut sub_channel = start.clone();
        if kind != 0 {
            assert_eq!(sub_channel.accept(accept_info()), Err(Error::InvalidState));
            assert_eq!(sub_channel.reject(), Err(Error::InvalidState));
        }
        if kind != 1 {
            assert_eq!(sub_channel.confirm(confirm_info()), Err(Error::InvalidState));
        }
        if kind != 2 {
            assert_eq!(
                sub_channel.finalize(UPDATE_IDX, adaptor_signature(9)),
                Err(Error::InvalidState)
            );
        }
        if kind != 3 {
            assert_eq!(sub_channel.revoke(), Err(Error::InvalidState));
        }
        if kind != 4 {
            assert_eq!(sub_channel.force_close(true), Err(Error::InvalidState));
            assert_eq!(sub_channel.offer_close(1, 2, true), Err(Error::InvalidState));
        }
        if kind != 5 {
            assert_eq!(
                sub_channel.closing_confirmed(ClosingObservation::LocalClose),
                Err(Error::InvalidState)
            );
            assert_eq!(
                sub_channel.resolve_closing(ClosingObservation::LocalClose, Some([1; 32])),
                Err(Error::InvalidState)
            );
        }
        if kind != 8 {
            assert_eq!(sub_channel.accept_close(), Err(Error::InvalidState));
        }
        if kind != 9 {
            assert_eq!(sub_channel.confirm_close(false), Err(Error::InvalidState));
        }
        if kind != 10 {
            assert_eq!(sub_channel.finalize_close(), Err(Error::InvalidState));
        }
        assert!(&sub_channel == start);
    }
}

#[test]
fn nothing_leads_on_from_a_closed_sub_channel() {
    for state in [
        SubChannelState::OnChainClosed,
        SubChannelState::CounterOnChainClosed,
        SubChannelState::OffChainClosed,
        SubChannelState::ClosedPunished(txid(1)),
        SubChannelState::Rejected,
    ] {
        let start = with_state(state);
        for event in [
            SubChannelEvent::Accept(accept_info()),
            SubChannelEvent::Reject,
            SubChannelEvent::Confirm(confirm_info()),
            SubChannelEvent::Finalize {
                update_idx: UPDATE_IDX,
                counter_split_adaptor_signature: adaptor_signature(9),
            },
            SubChannelEvent::Revoke,
            SubChannelEvent::ForceClose { is_initiator: false },
            SubChannelEvent::ClosingConfirmed(ClosingObservation::LocalClose),
            SubChannelEvent::OfferClose {
                offer_balance: 1,
                accept_balance: 2,
                is_offer: false,
            },
            SubChannelEvent::AcceptClose,
            SubChannelEvent::ConfirmClose {
                check_ln_secret: false,
            },
            SubChannelEvent::FinalizeClose,
        ] {
            let mut sub_channel = start.clone();
            assert_eq!(sub_channel.apply(event), Err(Error::InvalidState));
            assert!(sub_channel == start);
        }
    }
}

#[test]
fn events_lead_through_the_life_of_a_sub_channel() {
    let mut sub_channel = offered();
    assert_eq!(
        sub_channel.apply(SubChannelEvent::Accept(accept_info())),
        Ok(None)
    );
    assert!(sub_channel == accepted());
    assert_eq!(
        sub_channel.apply(SubChannelEvent::Confirm(confirm_info())),
        Ok(None)
    );
    assert!(sub_channel == confirmed());
    assert_eq!(
        sub_channel.apply(SubChannelEvent::Finalize {
            update_idx: UPDATE_IDX,
            counter_split_adaptor_signature: adaptor_signature(9),
        }),
        Ok(None)
    );
    assert!(sub_channel == finalized());
    assert_eq!(sub_channel.apply(SubChannelEvent::Revoke), Ok(None));
    assert!(sub_channel == signed());
    assert_eq!(
        sub_channel.apply(SubChannelEvent::OfferClose {
            offer_balance: 600,
            accept_balance: 400,
            is_offer: true,
        }),
        Ok(None)
    );
    assert!(sub_channel == close_offered());
    assert_eq!(sub_channel.apply(SubChannelEvent::AcceptClose), Ok(None));
    assert!(sub_channel == close_accepted());
    assert_eq!(
        sub_channel.apply(SubChannelEvent::ConfirmClose {
            check_ln_secret: true
        }),
        Ok(None)
    );
    assert!(sub_channel == close_confirmed());
    assert_eq!(
        sub_channel.apply(SubChannelEvent::FinalizeClose),
        Ok(Some(expected_rollback()))
    );
    assert_eq!(sub_channel.state, SubChannelState::OffChainClosed);

    let mut sub_channel = signed();
    assert_eq!(
        sub_channel.apply(SubChannelEvent::ForceClose { is_initiator: true }),
        Ok(None)
    );
    assert!(sub_channel == closing());
    assert_eq!(
        sub_channel.apply(SubChannelEvent::ClosingConfirmed(
            ClosingObservation::LocalClose
        )),
        Ok(None)
    );
    assert_eq!(sub_channel.state, SubChannelState::OnChainClosed);

    let mut sub_channel = offered();
    assert_eq!(sub_channel.apply(SubChannelEvent::Reject), Ok(None));
    assert_eq!(sub_channel.state, SubChannelState::Rejected);
}

#[test]
fn force_close_keeps_the_signed_sub_channel() {
    let signed_payload = match signed().state {
        SubChannelState::Signed(s) => s,
        _ => panic!("not signed"),
    };
    for is_initiator in [true, false] {
        let mut sub_channel = signed();
        assert_eq!(sub_channel.force_close(is_initiator), Ok(()));
        match &sub_channel.state {
            SubChannelState::Closing(c) => {
                assert_eq!(c.signed_sub_channel, signed_payload);
                assert_eq!(c.is_initiator, is_initiator);
            }
            _ => panic!("not closing"),
        }
    }
}

#[test]
fn closing_off_chain_narrows_the_balances() {
    match &close_offered().state {
        SubChannelState::CloseOffered(c) => {
            assert_eq!(c.offer_balance, 600);
            assert_eq!(c.accept_balance, 400);
            assert!(c.is_offer);
        }
        _ => panic!("not close offered"),
    }
    match &close_accepted().state {
        SubChannelState::CloseAccepted(c) => {
            assert_eq!(c.own_balance, 600);
            assert_eq!(c.counter_balance, 400);
            assert_eq!(c.ln_rollback, expected_rollback());
            assert_eq!(c.ln_rollback, c.signed_subchannel.ln_rollback);
        }
        _ => panic!("not close accepted"),
    }
    let mut sub_channel = signed();
    sub_channel.offer_close(600, 400, false).unwrap();
    sub_channel.accept_close().unwrap();
    match &sub_channel.state {
        SubChannelState::CloseAccepted(c) => {
            assert_eq!(c.own_balance, 400);
            assert_eq!(c.counter_balance, 600);
        }
        _ => panic!("not close accepted"),
    }
    for check_ln_secret in [true, false] {
        let mut sub_channel = close_accepted();
        sub_channel.confirm_close(check_ln_secret).unwrap();
        match &sub_channel.state {
            SubChannelState::CloseConfirmed(c) => {
                assert_eq!(c.own_balance, 600);
                assert_eq!(c.counter_balance, 400);
                assert_eq!(c.ln_rollback, expected_rollback());
                assert_eq!(c.check_ln_secret, check_ln_secret);
            }
            _ => panic!("not close confirmed"),
        }
    }
}

#[test]
fn closing_off_chain_hands_the_rollback_out() {
    let mut sub_channel = close_confirmed();
    assert_eq!(sub_channel.finalize_close(), Ok(expected_rollback()));
    assert_eq!(sub_channel.state, SubChannelState::OffChainClosed);
    assert_eq!(sub_channel.get_reestablish_flag(), Some(9));
    assert_eq!(sub_channel.finalize_close(), Err(Error::InvalidState));
}

#[test]
fn revoked_split_transaction_is_punished() {
    let mut sub_channel = closing();
    for update_idx in 0..=3 {
        sub_channel.reveal_secret(update_idx, secret_of(update_idx)).unwrap();
    }
    let start = sub_channel.clone();
    assert_eq!(
        sub_channel.closing_confirmed(ClosingObservation::CounterClose {
            update_idx: 3,
            punish_txid: txid(0x77),
        }),
        Ok(())
    );
    assert_eq!(sub_channel.state, SubChannelState::ClosedPunished(txid(0x77)));

    let mut sub_channel = start.clone();
    assert_eq!(
        sub_channel.closing_confirmed(ClosingObservation::CounterClose {
            update_idx: 4,
            punish_txid: txid(0x77),
        }),
        Ok(())
    );
    assert_eq!(sub_channel.state, SubChannelState::CounterOnChainClosed);

    let mut sub_channel = start.clone();
    assert_eq!(
        sub_channel.closing_confirmed(ClosingObservation::CounterClose {
            update_idx: 0,
            punish_txid: txid(0x78),
        }),
        Ok(())
    );
    assert_eq!(sub_channel.state, SubChannelState::ClosedPunished(txid(0x78)));

    let mut sub_channel = start.clone();
    assert_eq!(
        sub_channel.apply(SubChannelEvent::ClosingConfirmed(
            ClosingObservation::CounterClose {
                update_idx: 2,
                punish_txid: txid(0x79),
            }
        )),
        Ok(None)
    );
    assert_eq!(sub_channel.state, SubChannelState::ClosedPunished(txid(0x79)));

    let mut sub_channel = start;
    assert_eq!(
        sub_channel.closing_confirmed(ClosingObservation::LocalClose),
        Ok(())
    );
    assert_eq!(sub_channel.state, SubChannelState::OnChainClosed);
}

#[test]
fn no_secret_no_punishment() {
    let mut sub_channel = closing();
    assert_eq!(
        sub_channel.closing_confirmed(ClosingObservation::CounterClose {
            update_idx: 0,
            punish_txid: txid(0x77),
        }),
        Ok(())
    );
    assert_eq!(sub_channel.state, SubChannelState::CounterOnChainClosed);

    let mut sub_channel = closing();
    assert_eq!(
        sub_channel.closing_confirmed(ClosingObservation::CounterClose {
            update_idx: u64::MAX,
            punish_txid: txid(0x77),
        }),
        Ok(())
    );
    assert_eq!(sub_channel.state, SubChannelState::CounterOnChainClosed);
}

#[test]
fn closing_resolves_on_the_secret_handed_in() {
    let observed = ClosingObservation::CounterClose {
        update_idx: 5,
        punish_txid: txid(0x66),
    };
    let mut sub_channel = closing();
    assert_eq!(
        sub_channel.resolve_closing(observed.clone(), Some([9; 32])),
        Ok(())
    );
    assert_eq!(sub_channel.state, SubChannelState::ClosedPunished(txid(0x66)));
    let mut sub_channel = closing();
    assert_eq!(sub_channel.resolve_closing(observed, None), Ok(()));
    assert_eq!(sub_channel.state, SubChannelState::CounterOnChainClosed);
    let mut sub_channel = closing();
    assert_eq!(
        sub_channel.resolve_closing(ClosingObservation::LocalClose, Some([9; 32])),
        Ok(())
    );
    assert_eq!(sub_channel.state, SubChannelState::OnChainClosed);
}

fn closed_off_chain() -> SubChannel {
    let mut sub_channel = close_confirmed();
    sub_channel.finalize_close().unwrap();
    sub_channel
}

#[test]
fn new_split_after_closing_off_chain() {
    let mut sub_channel = closed_off_chain();
    sub_channel.reveal_secret(0, secret_of(0)).unwrap();
    let closed = sub_channel.clone();
    assert_eq!(
        sub_channel.offer_again(OfferInfo {
            update_idx: UPDATE_IDX + 1,
            per_split_point: public_key(50),
            is_offer: false,
        }),
        Ok(())
    );
    assert!(matches!(&sub_channel.state, SubChannelState::Offered(o) if o.per_split_point == public_key(50)));
    assert_eq!(sub_channel.update_idx, UPDATE_IDX + 1);
    assert!(!sub_channel.is_offer);
    assert_eq!(sub_channel.channel_id, closed.channel_id);
    assert_eq!(sub_channel.per_split_seed, closed.per_split_seed);
    assert_eq!(sub_channel.counter_base_points, closed.counter_base_points);
    assert!(sub_channel.counter_party_secrets == closed.counter_party_secrets);
    assert_eq!(revealed_secrets(&sub_channel.counter_party_secrets), 1);
    assert_eq!(
        sub_channel.get_dlc_channel_id(0),
        Some(generate_temporary_channel_id(channel_id(), UPDATE_IDX + 1, 0))
    );
    assert_ne!(sub_channel.get_dlc_channel_id(0), offered().get_dlc_channel_id(0));

    let mut info = accept_info();
    info.update_idx = UPDATE_IDX + 1;
    info.counter_base_points = None;
    assert_eq!(sub_channel.accept(info), Ok(()));
    match &sub_channel.state {
        SubChannelState::Accepted(a) => {
            assert_eq!(a.offer_per_split_point, public_key(30));
            assert_eq!(a.accept_per_split_point, public_key(50));
        }
        _ => panic!("not accepted"),
    }

    let mut sub_channel = closed.clone();
    assert_eq!(
        sub_channel.offer_again(OfferInfo {
            update_idx: UPDATE_IDX + 1,
            per_split_point: public_key(50),
            is_offer: true,
        }),
        Ok(())
    );
    assert_eq!(sub_channel.update_idx, UPDATE_IDX + 1);
    assert!(sub_channel.is_offer);
}

#[test]
fn new_split_with_a_lower_or_equal_update_index_is_refused() {
    for update_idx in [0, UPDATE_IDX - 1, UPDATE_IDX] {
        let mut sub_channel = closed_off_chain();
        assert_eq!(
            sub_channel.offer_again(OfferInfo {
                update_idx,
                per_split_point: public_key(50),
                is_offer: true,
            }),
            Err(Error::InvalidUpdateIndex)
        );
        assert!(sub_channel == closed_off_chain());
    }
}

#[test]
fn new_split_must_take_the_next_update_index() {
    for update_idx in [UPDATE_IDX + 2, UPDATE_IDX + 100, u64::MAX] {
        let mut sub_channel = closed_off_chain();
        assert_eq!(
            sub_channel.offer_again(OfferInfo {
                update_idx,
                per_split_point: public_key(50),
                is_offer: true,
            }),
            Err(Error::InvalidUpdateIndex)
        );
        assert!(sub_channel == closed_off_chain());
    }
    let mut sub_channel = closed_off_chain();
    sub_channel.update_idx = u64::MAX;
    let last = sub_channel.clone();
    for update_idx in [0, u64::MAX] {
        assert_eq!(
            sub_channel.offer_again(OfferInfo {
                update_idx,
                per_split_point: public_key(50),
                is_offer: true,
            }),
            Err(Error::InvalidUpdateIndex)
        );
        assert!(sub_channel == last);
    }
}

#[test]
fn secrets_are_revealed_for_the_splits_that_were() {
    let mut sub_channel = signed();
    for update_idx in 0..=UPDATE_IDX {
        assert_eq!(
            sub_channel.reveal_secret(update_idx, secret_of(update_idx)),
            Ok(())
        );
        assert_eq!(
            revealed_secrets(&sub_channel.counter_party_secrets),
            update_idx + 1
        );
    }
    let before = sub_channel.clone();
    assert_eq!(
        sub_channel.reveal_secret(UPDATE_IDX + 1, secret_of(UPDATE_IDX + 1)),
        Err(Error::InvalidUpdateIndex)
    );
    assert!(sub_channel == before);
    assert_eq!(sub_channel.state, signed().state);
    assert_eq!(sub_channel.update_idx, UPDATE_IDX);
}

#[test]
fn secrets_are_revealed_in_the_order_of_the_splits() {
    let mut sub_channel = signed();
    assert_eq!(
        sub_channel.reveal_secret(1, secret_of(1)),
        Err(Error::InvalidUpdateIndex)
    );
    assert!(sub_channel == signed());
    assert_eq!(sub_channel.reveal_secret(0, secret_of(0)), Ok(()));
    assert_eq!(
        sub_channel.reveal_secret(0, secret_of(0)),
        Err(Error::InvalidUpdateIndex)
    );
    assert_eq!(
        sub_channel.reveal_secret(1, [9; 32]),
        Err(Error::InvalidSecret)
    );
    assert_eq!(revealed_secrets(&sub_channel.counter_party_secrets), 1);
    assert_eq!(sub_channel.reveal_secret(1, secret_of(1)), Ok(()));
}

#[test]
fn new_split_needs_a_sub_channel_closed_off_chain() {
    for (kind, start) in every_state().iter().enumerate() {
        if kind == 11 {
            continue;
        }
        let mut sub_channel = start.clone();
        assert_eq!(
            sub_channel.offer_again(OfferInfo {
                update_idx: UPDATE_IDX + 1,
                per_split_point: public_key(50),
                is_offer: true,
            }),
            Err(Error::InvalidState)
        );
        assert!(&sub_channel == start);
    }
}

#[test]
fn debug_string_names_the_channel_and_the_state() {
    let text = offered().debug_string();
    assert!(text.starts_with("SubChannel { channel_id: [0, 7, 14, "));
    assert!(text.contains("state: Offered(OfferedSubChannel"));
    let text = with_state(SubChannelState::Rejected).debug_string();
    assert!(text.ends_with("state: Rejected }"));
}

#[test]
fn debug_string_shows_the_channel_and_the_state_only() {
    let expected_id = "[0, 7, 14, 21, 28, 35, 42, 49, 56, 63, 70, 77, 84, 91, 98, 105, 112, 119, \
                       126, 133, 140, 147, 154, 161, 168, 175, 182, 189, 196, 203, 210, 217]";
    assert_eq!(
        with_state(SubChannelState::Rejected).debug_string(),
        format!("SubChannel {{ channel_id: {}, state: Rejected }}", expected_id)
    );
    assert_eq!(
        with_state(SubChannelState::OffChainClosed).debug_string(),
        format!("SubChannel {{ channel_id: {}, state: OffChainClosed }}", expected_id)
    );
    for sub_channel in every_state() {
        assert_eq!(
            sub_channel.debug_string(),
            format!(
                "SubChannel {{ channel_id: {:?}, state: {:?} }}",
                sub_channel.channel_id, sub_channel.state
            )
        );
    }
    let mut other = signed();
    other.update_idx = 99;
    other.fee_rate_per_vb = 1;
    assert_eq!(other.debug_string(), signed().debug_string());
    other.channel_id = [1; 32];
    assert_ne!(other.debug_string(), signed().debug_string());
    assert_ne!(signed().debug_string(), finalized().debug_string());
}
