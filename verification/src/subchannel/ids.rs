//! Temporary identifiers of the DLC channels of a sub channel.

use vstd::prelude::*;

use crate::hashing::{sha256, sha256_digest};
use crate::{ChannelId, ContractId};

verus! {

/// The eight bytes of `x`, most significant first.
pub open spec fn u64_be_bytes(x: u64) -> Seq<u8> {
    seq![
        (x / 0x100_0000_0000_0000) as u8,
        (x / 0x1_0000_0000_0000 % 256) as u8,
        (x / 0x100_0000_0000 % 256) as u8,
        (x / 0x1_0000_0000 % 256) as u8,
        (x / 0x100_0000 % 256) as u8,
        (x / 0x1_0000 % 256) as u8,
        (x / 0x100 % 256) as u8,
        (x % 256) as u8,
    ]
}

/// What is hashed into a temporary identifier: the identifier of the Lightning channel, the
/// update index of the split in eight bytes, most significant first, and the index of the DLC
/// channel within the sub channel in one byte.
pub open spec fn temporary_channel_id_data(
    channel_id: Seq<u8>,
    split_update_idx: u64,
    channel_index: u8,
) -> Seq<u8> {
    channel_id + u64_be_bytes(split_update_idx) + seq![channel_index]
}

/// The temporary identifier of a DLC channel: the SHA-256 digest of
/// `temporary_channel_id_data`.
pub open spec fn spec_temporary_channel_id(
    channel_id: Seq<u8>,
    split_update_idx: u64,
    channel_index: u8,
) -> Seq<u8> {
    sha256_digest(temporary_channel_id_data(channel_id, split_update_idx, channel_index))
}

/// The bytes of `x`, most significant first, are what shifting `x` to the right by a
/// multiple of eight bits leaves in the lowest byte.
pub proof fn lemma_u64_be_bytes(x: u64)
    ensures
        u64_be_bytes(x) == seq![
            (x >> 56) as u8,
            (x >> 48) as u8,
            (x >> 40) as u8,
            (x >> 32) as u8,
            (x >> 24) as u8,
            (x >> 16) as u8,
            (x >> 8) as u8,
            x as u8,
        ],
{
    assert((x >> 56) as u8 == (x / 0x100_0000_0000_0000) as u8) by (bit_vector);
    assert((x >> 48) as u8 == (x / 0x1_0000_0000_0000 % 256) as u8) by (bit_vector);
    assert((x >> 40) as u8 == (x / 0x100_0000_0000 % 256) as u8) by (bit_vector);
    assert((x >> 32) as u8 == (x / 0x1_0000_0000 % 256) as u8) by (bit_vector);
    assert((x >> 24) as u8 == (x / 0x100_0000 % 256) as u8) by (bit_vector);
    assert((x >> 16) as u8 == (x / 0x1_0000 % 256) as u8) by (bit_vector);
    assert((x >> 8) as u8 == (x / 0x100 % 256) as u8) by (bit_vector);
    assert(x as u8 == (x % 256) as u8) by (bit_vector);
    assert(u64_be_bytes(x) =~= seq![
        (x >> 56) as u8,
        (x >> 48) as u8,
        (x >> 40) as u8,
        (x >> 32) as u8,
        (x >> 24) as u8,
        (x >> 16) as u8,
        (x >> 8) as u8,
        x as u8,
    ]);
}

/// Numbers with the same eight bytes are the same.
pub proof fn lemma_u64_be_bytes_injective(x: u64, y: u64)
    requires
        u64_be_bytes(x) == u64_be_bytes(y),
    ensures
        x == y,
{
    lemma_u64_be_bytes(x);
    lemma_u64_be_bytes(y);
    let a = u64_be_bytes(x);
    let b = u64_be_bytes(y);
    assert(a[0] == b[0] && a[1] == b[1] && a[2] == b[2] && a[3] == b[3] && a[4] == b[4] && a[5]
        == b[5] && a[6] == b[6] && a[7] == b[7]);
    assert(x == y) by (bit_vector)
        requires
            (x >> 56) as u8 == (y >> 56) as u8,
            (x >> 48) as u8 == (y >> 48) as u8,
            (x >> 40) as u8 == (y >> 40) as u8,
            (x >> 32) as u8 == (y >> 32) as u8,
            (x >> 24) as u8 == (y >> 24) as u8,
            (x >> 16) as u8 == (y >> 16) as u8,
            (x >> 8) as u8 == (y >> 8) as u8,
            x as u8 == y as u8,
    ;
}

/// The eight bytes of `x`, most significant first.
pub fn to_be_bytes(x: u64) -> (bytes: [u8; 8])
    ensures
        bytes@ == u64_be_bytes(x),
{
    let bytes: [u8; 8] = [
        (x >> 56) as u8,
        (x >> 48) as u8,
        (x >> 40) as u8,
        (x >> 32) as u8,
        (x >> 24) as u8,
        (x >> 16) as u8,
        (x >> 8) as u8,
        x as u8,
    ];
    proof {
        lemma_u64_be_bytes(x);
        assert(bytes@ =~= u64_be_bytes(x));
    }
    bytes
}

/// Builds the bytes that are hashed into the temporary identifier of a DLC channel.
pub fn temporary_channel_id_preimage(
    channel_id: &ChannelId,
    split_update_idx: u64,
    channel_index: u8,
) -> (data: Vec<u8>)
    ensures
        data@ == temporary_channel_id_data(channel_id@, split_update_idx, channel_index),
{
    let mut data: Vec<u8> = Vec::with_capacity(65);
    let mut i: usize = 0;
    while i < 32
        invariant
            i <= 32,
            data@ == channel_id@.subrange(0, i as int),
        decreases 32 - i,
    {
        data.push(channel_id[i]);
        i += 1;
    }
    assert(data@ == channel_id@);
    let index_bytes = to_be_bytes(split_update_idx);
    let mut k: usize = 0;
    while k < 8
        invariant
            k <= 8,
            data@ == channel_id@ + index_bytes@.subrange(0, k as int),
        decreases 8 - k,
    {
        data.push(index_bytes[k]);
        k += 1;
    }
    assert(index_bytes@.subrange(0, 8) == index_bytes@);
    data.push(channel_index);
    data
}

/// Generate a temporary channel id for a DLC channel based on the Lightning channel id, the
/// update index of the split transaction and the index of the DLC channel within the sub
/// channel.
pub fn generate_temporary_channel_id(
    channel_id: ChannelId,
    split_update_idx: u64,
    channel_index: u8,
) -> (id: ContractId)
    ensures
        id@ == spec_temporary_channel_id(channel_id@, split_update_idx, channel_index),
        id@.len() == 32,
{
    let data = temporary_channel_id_preimage(&channel_id, split_update_idx, channel_index);
    sha256(data.as_slice())
}

} // verus!
