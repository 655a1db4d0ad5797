use dlc_manager::error::Error;
use dlc_manager::subchannel::channel_manager::{
    channel_position, force_close_result, funding_output_index, get_channel_details,
    same_channel_id,
};
use lightning::util::errors::APIError;
use dlc_manager::subchannel::ChannelDetails;
use lightning::chain::transaction::OutPoint;

fn details(id: u8, value: u64) -> ChannelDetails {
    ChannelDetails {
        channel_id: [id; 32],
        channel_value_satoshis: value,
        balance_msat: value * 1000,
        funding_txo: Some(OutPoint {
            txid: bitcoin::hashes::Hash::from_inner([id; 32]),
            index: 1,
        }),
    }
}

#[test]
fn channel_ids_are_compared_byte_by_byte() {
    assert!(same_channel_id(&[1; 32], &[1; 32]));
    assert!(!same_channel_id(&[1; 32], &[2; 32]));
    let mut other = [1u8; 32];
    other[31] = 0;
    assert!(!same_channel_id(&[1; 32], &other));
    let mut other = [1u8; 32];
    other[0] = 0;
    assert!(!same_channel_id(&other, &[1; 32]));
}

#[test]
fn channel_details_are_found_by_id() {
    let channels = vec![details(1, 10), details(2, 20), details(3, 30)];
    assert_eq!(get_channel_details(&channels, &[2; 32]), Some(&channels[1]));
    assert_eq!(get_channel_details(&channels, &[1; 32]), Some(&channels[0]));
    assert_eq!(get_channel_details(&channels, &[3; 32]), Some(&channels[2]));
    assert_eq!(get_channel_details(&channels, &[4; 32]), None);
    assert_eq!(get_channel_details(&vec![], &[1; 32]), None);
}

#[test]
fn first_channel_with_the_id_is_found() {
    let channels = vec![details(1, 10), details(2, 20), details(2, 30)];
    let found = get_channel_details(&channels, &[2; 32]).unwrap();
    assert_eq!(found.channel_value_satoshis, 20);
}

#[test]
fn funding_output_index_keeps_the_lowest_16_bits() {
    assert_eq!(funding_output_index(0), 0);
    assert_eq!(funding_output_index(1), 1);
    assert_eq!(funding_output_index(0xffff), 0xffff);
    assert_eq!(funding_output_index(0x1_0000), 0);
    assert_eq!(funding_output_index(0x1_0005), 5);
    assert_eq!(funding_output_index(u32::MAX), 0xffff);
}

#[test]
fn channel_positions() {
    let channels = vec![details(1, 10), details(2, 20), details(2, 30)];
    assert_eq!(channel_position(&channels, &[1; 32]), Some(0));
    assert_eq!(channel_position(&channels, &[2; 32]), Some(1));
    assert_eq!(channel_position(&channels, &[3; 32]), None);
    assert_eq!(channel_position(&vec![], &[3; 32]), None);
}

#[test]
fn force_close_failure_is_an_error_of_the_protocol() {
    assert_eq!(force_close_result(Ok(())), Ok(()));
    let failure = APIError::ChannelUnavailable {
        err: "no such channel".to_string(),
    };
    let expected = format!("{:?}", failure);
    assert_eq!(
        force_close_result(Err(failure)),
        Err(Error::InvalidParameters(expected.clone()))
    );
    assert!(expected.contains("no such channel"));
}
