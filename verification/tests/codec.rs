use dlc_manager::codec::de::{read_le, Decodable};
use dlc_manager::codec::enc::{write_bytes, write_le, Encodeable};
use dlc_manager::codec::error::{DecodeError, EncodeError};
use dlc_manager::codec::{decode, encode_into_slice};

#[test]
fn encode_u8() {
    let mut dst = [0xaau8; 3];
    assert_eq!(encode_into_slice(7u8, &mut dst), Ok(1));
    assert_eq!(dst, [7, 0xaa, 0xaa]);
}

#[test]
fn encode_u16_least_significant_first() {
    let mut dst = [0xaau8; 3];
    assert_eq!(encode_into_slice(0x0102u16, &mut dst), Ok(2));
    assert_eq!(dst, [2, 1, 0xaa]);
}

#[test]
fn encode_u32_least_significant_first() {
    let mut dst = [0xaau8; 5];
    assert_eq!(encode_into_slice(0x01020304u32, &mut dst), Ok(4));
    assert_eq!(dst, [4, 3, 2, 1, 0xaa]);
}

#[test]
fn encode_u64_least_significant_first() {
    let mut dst = [0xaau8; 9];
    assert_eq!(encode_into_slice(0x0102030405060708u64, &mut dst), Ok(8));
    assert_eq!(dst, [8, 7, 6, 5, 4, 3, 2, 1, 0xaa]);
    let mut dst = [0u8; 8];
    assert_eq!(encode_into_slice(u64::MAX, &mut dst), Ok(8));
    assert_eq!(dst, [0xff; 8]);
    let mut dst = [0xaau8; 8];
    assert_eq!(encode_into_slice(0x1234u64, &mut dst), Ok(8));
    assert_eq!(dst, 0x1234u64.to_le_bytes());
}

#[test]
fn encode_bool() {
    let mut dst = [0xaau8; 2];
    assert_eq!(encode_into_slice(true, &mut dst), Ok(1));
    assert_eq!(dst, [1, 0xaa]);
    assert_eq!(encode_into_slice(false, &mut dst), Ok(1));
    assert_eq!(dst, [0, 0xaa]);
}

#[test]
fn encode_channel_id() {
    let mut id = [0u8; 32];
    for (i, byte) in id.iter_mut().enumerate() {
        *byte = (i * 3) as u8;
    }
    let mut dst = [0xaau8; 34];
    assert_eq!(encode_into_slice(id, &mut dst), Ok(32));
    assert_eq!(&dst[..32], &id[..]);
    assert_eq!(&dst[32..], &[0xaa, 0xaa]);
}

#[test]
fn encode_option() {
    let mut dst = [0xaau8; 4];
    assert_eq!(encode_into_slice(None::<u16>, &mut dst), Ok(1));
    assert_eq!(dst, [0, 0xaa, 0xaa, 0xaa]);
    assert_eq!(encode_into_slice(Some(0x0102u16), &mut dst), Ok(3));
    assert_eq!(dst, [1, 2, 1, 0xaa]);
    let mut dst = [0xaau8; 4];
    assert_eq!(encode_into_slice(Some(Some(9u8)), &mut dst), Ok(3));
    assert_eq!(dst, [1, 1, 9, 0xaa]);
}

#[test]
fn encode_fails_when_the_slice_is_too_short() {
    let mut dst = [0xaau8; 3];
    assert_eq!(
        encode_into_slice(1u32, &mut dst),
        Err(EncodeError::UnexpectedEnd)
    );
    assert_eq!(dst, [0xaa; 3]);
    let mut empty: [u8; 0] = [];
    assert_eq!(
        encode_into_slice(1u8, &mut empty),
        Err(EncodeError::UnexpectedEnd)
    );
    let mut dst = [0xaau8; 2];
    assert_eq!(
        encode_into_slice(Some(0x0102u16), &mut dst),
        Err(EncodeError::UnexpectedEnd)
    );
    assert_eq!(dst.len(), 2);
    let mut dst = [0u8; 31];
    assert_eq!(
        encode_into_slice([1u8; 32], &mut dst),
        Err(EncodeError::UnexpectedEnd)
    );
}

#[test]
fn encode_fits_exactly() {
    let mut dst = [0u8; 4];
    assert_eq!(encode_into_slice(0xdeadbeefu32, &mut dst), Ok(4));
    assert_eq!(dst, [0xef, 0xbe, 0xad, 0xde]);
}

#[test]
fn encode_at_a_position() {
    let mut dst = [0xaau8; 6];
    assert_eq!(0x0102u16.encode(&mut dst, 3), Ok(5));
    assert_eq!(dst, [0xaa, 0xaa, 0xaa, 2, 1, 0xaa]);
    assert_eq!(0x0102u16.encode(&mut dst, 5), Err(EncodeError::UnexpectedEnd));
    assert_eq!(0x0102u16.encode(&mut dst, 6), Err(EncodeError::UnexpectedEnd));
    assert_eq!(dst, [0xaa, 0xaa, 0xaa, 2, 1, 0xaa]);
}

#[test]
fn write_le_writes_the_lowest_digits() {
    let mut dst = [0xaau8; 4];
    assert_eq!(write_le(&mut dst, 1, 0x010203, 2), Ok(3));
    assert_eq!(dst, [0xaa, 3, 2, 0xaa]);
    assert_eq!(write_le(&mut dst, 4, 5, 0), Ok(4));
    assert_eq!(write_le(&mut dst, 3, 5, 2), Err(EncodeError::UnexpectedEnd));
}

#[test]
fn write_bytes_copies() {
    let mut dst = [0xaau8; 4];
    assert_eq!(write_bytes(&mut dst, 1, &[1, 2]), Ok(3));
    assert_eq!(dst, [0xaa, 1, 2, 0xaa]);
    assert_eq!(write_bytes(&mut dst, 2, &[]), Ok(2));
    assert_eq!(
        write_bytes(&mut dst, 2, &[1, 2, 3]),
        Err(EncodeError::UnexpectedEnd)
    );
    assert_eq!(dst, [0xaa, 1, 2, 0xaa]);
}

#[test]
fn decode_integers() {
    let mut src = [8u8, 7, 6, 5, 4, 3, 2, 1, 9];
    assert_eq!(decode::<u8>(&mut src), Ok(8));
    assert_eq!(decode::<u16>(&mut src), Ok(0x0708));
    assert_eq!(decode::<u32>(&mut src), Ok(0x05060708));
    assert_eq!(decode::<u64>(&mut src), Ok(0x0102030405060708));
    assert_eq!(src, [8u8, 7, 6, 5, 4, 3, 2, 1, 9]);
    let mut src = [0xffu8; 8];
    assert_eq!(decode::<u64>(&mut src), Ok(u64::MAX));
}

#[test]
fn decode_bool() {
    assert_eq!(decode::<bool>(&mut [0u8, 5]), Ok(false));
    assert_eq!(decode::<bool>(&mut [1u8]), Ok(true));
    assert_eq!(
        decode::<bool>(&mut [2u8]),
        Err(DecodeError::InvalidBoolValue(2))
    );
    assert_eq!(decode::<bool>(&mut []), Err(DecodeError::UnexpectedEnd));
}

#[test]
fn decode_channel_id() {
    let mut src = [0u8; 40];
    for (i, byte) in src.iter_mut().enumerate() {
        *byte = i as u8;
    }
    let id = decode::<[u8; 32]>(&mut src).unwrap();
    assert_eq!(&id[..], &src[..32]);
    assert_eq!(
        decode::<[u8; 32]>(&mut [0u8; 31]),
        Err(DecodeError::UnexpectedEnd)
    );
}

#[test]
fn decode_option() {
    assert_eq!(decode::<Option<u16>>(&mut [0u8, 9, 9]), Ok(None));
    assert_eq!(decode::<Option<u16>>(&mut [1u8, 2, 1]), Ok(Some(0x0102)));
    assert_eq!(
        decode::<Option<u16>>(&mut [1u8, 2]),
        Err(DecodeError::UnexpectedEnd)
    );
    assert_eq!(
        decode::<Option<u16>>(&mut [3u8, 2, 1]),
        Err(DecodeError::UnexpectedVariant(3))
    );
    assert_eq!(
        decode::<Option<u16>>(&mut []),
        Err(DecodeError::UnexpectedEnd)
    );
    assert_eq!(
        decode::<Option<bool>>(&mut [1u8, 7]),
        Err(DecodeError::InvalidBoolValue(7))
    );
}

#[test]
fn decode_fails_when_the_bytes_end() {
    assert_eq!(decode::<u8>(&mut []), Err(DecodeError::UnexpectedEnd));
    assert_eq!(decode::<u16>(&mut [1u8]), Err(DecodeError::UnexpectedEnd));
    assert_eq!(decode::<u32>(&mut [1u8; 3]), Err(DecodeError::UnexpectedEnd));
    assert_eq!(decode::<u64>(&mut [1u8; 7]), Err(DecodeError::UnexpectedEnd));
}

#[test]
fn decode_at_a_position() {
    let src = [0xaau8, 2, 1, 0xaa];
    assert_eq!(u16::decode(&src, 1), Ok((0x0102, 3)));
    assert_eq!(u16::decode(&src, 3), Err(DecodeError::UnexpectedEnd));
    assert_eq!(u16::decode(&src, 4), Err(DecodeError::UnexpectedEnd));
    assert_eq!(read_le(&src, 1, 3), Ok((0xaa0102, 4)));
    assert_eq!(read_le(&src, 2, 0), Ok((0, 2)));
}

#[test]
fn what_is_encoded_is_decoded() {
    let mut dst = [0xaau8; 40];
    for value in [0u64, 1, 255, 256, 0xdeadbeef, u64::MAX] {
        assert_eq!(encode_into_slice(value, &mut dst), Ok(8));
        assert_eq!(decode::<u64>(&mut dst), Ok(value));
    }
    for value in [0u16, 1, 255, 256, u16::MAX] {
        assert_eq!(encode_into_slice(value, &mut dst), Ok(2));
        assert_eq!(decode::<u16>(&mut dst), Ok(value));
    }
    for value in [0u32, 0x01020304, u32::MAX] {
        assert_eq!(encode_into_slice(value, &mut dst), Ok(4));
        assert_eq!(decode::<u32>(&mut dst), Ok(value));
    }
    for value in [None, Some(0u32), Some(77)] {
        encode_into_slice(value, &mut dst).unwrap();
        assert_eq!(decode::<Option<u32>>(&mut dst), Ok(value));
    }
    for value in [true, false] {
        encode_into_slice(value, &mut dst).unwrap();
        assert_eq!(decode::<bool>(&mut dst), Ok(value));
    }
    let id = [0x5au8; 32];
    assert_eq!(encode_into_slice(id, &mut dst), Ok(32));
    assert_eq!(decode::<[u8; 32]>(&mut dst), Ok(id));
}
