//! The hashes that identifiers are derived from.

use vstd::prelude::*;

verus! {

/// The SHA-256 digest of a byte string.
pub uninterp spec fn sha256_digest(data: Seq<u8>) -> Seq<u8>;

/// The transaction id of a transaction, as the 32 bytes that `bitcoin::Txid` holds.
pub uninterp spec fn txid_bytes(transaction: bitcoin::Transaction) -> Seq<u8>;

/// `bitcoin::hashes::sha256::Hash::hash` on `data`, then `into_inner`: the 32 bytes of the
/// SHA-256 digest. The digest depends on the bytes of `data` alone.
#[verifier::external_body]
pub(crate) fn sha256(data: &[u8]) -> (digest: [u8; 32])
    ensures
        digest@ == sha256_digest(data@),
{
    bitcoin::hashes::Hash::into_inner(
        <bitcoin::hashes::sha256::Hash as bitcoin::hashes::Hash>::hash(data),
    )
}

/// `bitcoin::Transaction::txid`, then `into_inner`: the 32 bytes of the transaction's id, in the
/// order in which `bitcoin::Txid` holds them. The id depends on the transaction alone.
#[verifier::external_body]
pub(crate) fn transaction_txid(transaction: &bitcoin::Transaction) -> (id: [u8; 32])
    ensures
        id@ == txid_bytes(*transaction),
{
    bitcoin::hashes::Hash::into_inner(transaction.txid())
}

} // verus!
