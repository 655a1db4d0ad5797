//! Derivation of the identifier of a channel from the transaction that funds it.

use vstd::prelude::*;

verus! {

/// What the funding output's index contributes to byte `i` of an identifier: its high byte at
/// position 30, its low byte at position 31, nothing elsewhere.
pub open spec fn index_mask(fund_output_index: u16, i: int) -> u8 {
    if i == 30 {
        (fund_output_index / 256) as u8
    } else if i == 31 {
        (fund_output_index % 256) as u8
    } else {
        0u8
    }
}

/// The identifier of the channel funded by output `fund_output_index` of the transaction with
/// id `fund_tx_id`: byte `i` is byte `31 - i` of the transaction id, combined by exclusive or
/// with byte `i` of the temporary identifier and with the index's contribution.
pub open spec fn spec_compute_id(
    fund_tx_id: Seq<u8>,
    fund_output_index: u16,
    temporary_id: Seq<u8>,
) -> Seq<u8> {
    Seq::new(
        32,
        |i: int| fund_tx_id[31 - i] ^ temporary_id[i] ^ index_mask(fund_output_index, i),
    )
}

/// The one transaction id for which the identifier computed for output `fund_output_index`
/// is the temporary identifier itself.
pub open spec fn neutral_txid(fund_output_index: u16) -> Seq<u8> {
    Seq::new(32, |k: int| index_mask(fund_output_index, 31 - k))
}

proof fn lemma_index_bytes(x: u16)
    ensures
        ((x >> 8) & 0xff) as u8 == (x / 256) as u8,
        (x & 0xff) as u8 == (x % 256) as u8,
{
    assert(((x >> 8) & 0xff) as u8 == (x / 256) as u8) by (bit_vector);
    assert((x & 0xff) as u8 == (x % 256) as u8) by (bit_vector);
}

proof fn lemma_xor_zero(a: u8)
    ensures
        a ^ 0u8 == a,
{
    assert(a ^ 0u8 == a) by (bit_vector);
}

/// Computes the identifier of a channel from the id of the transaction that funds it, the
/// index of the funding output and the temporary identifier of the channel.
pub fn compute_id(fund_tx_id: [u8; 32], fund_output_index: u16, temporary_id: &[u8; 32]) -> (id:
    [u8; 32])
    ensures
        id@ == spec_compute_id(fund_tx_id@, fund_output_index, temporary_id@),
{
    let mut res = [0u8; 32];
    let mut i: usize = 0;
    while i < 32
        invariant
            i <= 32,
            forall|j: int| 0 <= j < i ==> res@[j] == fund_tx_id@[31 - j] ^ temporary_id@[j],
        decreases 32 - i,
    {
        res[i] = fund_tx_id[31 - i] ^ temporary_id[i];
        i += 1;
    }
    let ghost plain = res@;
    let high: u8 = ((fund_output_index >> 8) & 0xff) as u8;
    let low: u8 = (fund_output_index & 0xff) as u8;
    res[30] = res[30] ^ high;
    res[31] = res[31] ^ low;
    proof {
        lemma_index_bytes(fund_output_index);
        assert forall|j: int| 0 <= j < 32 implies res@[j] == spec_compute_id(
            fund_tx_id@,
            fund_output_index,
            temporary_id@,
        )[j] by {
            if j != 30 && j != 31 {
                lemma_xor_zero(plain[j]);
            }
        }
    }
    res
}

/// An identifier computed from a transaction id is the temporary identifier it was computed
/// from exactly when the transaction id is, byte for byte, `neutral_txid` of the output index.
pub proof fn lemma_compute_id_keeps_temporary_id(
    fund_tx_id: Seq<u8>,
    fund_output_index: u16,
    temporary_id: Seq<u8>,
)
    ensures
        spec_compute_id(fund_tx_id, fund_output_index, temporary_id) == temporary_id <==> (
        temporary_id.len() == 32 && forall|k: int|
            0 <= k < 32 ==> fund_tx_id[k] == #[trigger] neutral_txid(fund_output_index)[k]),
{
    let id = spec_compute_id(fund_tx_id, fund_output_index, temporary_id);
    let neutral = neutral_txid(fund_output_index);
    if id == temporary_id {
        assert forall|k: int| 0 <= k < 32 implies fund_tx_id[k] == #[trigger] neutral[k] by {
            let i = 31 - k;
            let t = fund_tx_id[k];
            let p = temporary_id[i];
            let m = index_mask(fund_output_index, i);
            assert(id[i] == p);
            assert(t ^ p ^ m == p ==> t == m) by (bit_vector);
        }
    }
    if temporary_id.len() == 32 && forall|k: int|
        0 <= k < 32 ==> fund_tx_id[k] == #[trigger] neutral[k] {
        assert forall|i: int| 0 <= i < 32 implies id[i] == temporary_id[i] by {
            let p = temporary_id[i];
            let m = index_mask(fund_output_index, i);
            assert(fund_tx_id[31 - i] == neutral[31 - i]);
            assert(m ^ p ^ m == p) by (bit_vector);
        }
        assert(id =~= temporary_id);
    }
}

/// Two transaction ids give one identifier only if they are the same in each of their 32
/// bytes: the identifier binds the channel to the transaction that funds it.
pub proof fn lemma_compute_id_injective_in_txid(
    first_tx_id: Seq<u8>,
    second_tx_id: Seq<u8>,
    fund_output_index: u16,
    temporary_id: Seq<u8>,
)
    requires
        spec_compute_id(first_tx_id, fund_output_index, temporary_id) == spec_compute_id(
            second_tx_id,
            fund_output_index,
            temporary_id,
        ),
    ensures
        forall|k: int| 0 <= k < 32 ==> first_tx_id[k] == second_tx_id[k],
{
    let a = spec_compute_id(first_tx_id, fund_output_index, temporary_id);
    let b = spec_compute_id(second_tx_id, fund_output_index, temporary_id);
    assert forall|k: int| 0 <= k < 32 implies first_tx_id[k] == second_tx_id[k] by {
        let i = 31 - k;
        let s = first_tx_id[k];
        let t = second_tx_id[k];
        let p = temporary_id[i];
        let m = index_mask(fund_output_index, i);
        assert(a[i] == b[i]);
        assert(s ^ p ^ m == t ^ p ^ m ==> s == t) by (bit_vector);
    }
}

} // verus!
