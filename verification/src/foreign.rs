//! The types of other crates that sub channels carry. Nothing is known of what a value of
//! them holds: the state machine stores them and hands them on.

use vstd::prelude::*;

verus! {

/// `secp256k1_zkp::PublicKey`, of which nothing is known but that it is a value.
#[verifier::external_type_specification]
#[verifier::external_body]
pub struct ExPublicKey(secp256k1_zkp::PublicKey);

/// `secp256k1_zkp::SecretKey`, of which nothing is known but that it is a value.
#[verifier::external_type_specification]
#[verifier::external_body]
pub struct ExSecretKey(secp256k1_zkp::SecretKey);

/// `secp256k1_zkp::ecdsa::Signature`, of which nothing is known but that it is a value.
#[verifier::external_type_specification]
#[verifier::external_body]
pub struct ExSignature(secp256k1_zkp::ecdsa::Signature);

/// `secp256k1_zkp::EcdsaAdaptorSignature`, of which nothing is known but that it is a value.
#[verifier::external_type_specification]
#[verifier::external_body]
pub struct ExEcdsaAdaptorSignature(secp256k1_zkp::EcdsaAdaptorSignature);

/// `bitcoin::Script`, of which nothing is known but that it is a value.
#[verifier::external_type_specification]
#[verifier::external_body]
pub struct ExScript(bitcoin::Script);

/// `bitcoin::Transaction`, of which nothing is known but that it is a value.
#[verifier::external_type_specification]
#[verifier::external_body]
pub struct ExTransaction(bitcoin::Transaction);

/// `bitcoin::Txid`, of which nothing is known but that it is a value.
#[verifier::external_type_specification]
#[verifier::external_body]
pub struct ExTxid(bitcoin::Txid);

/// `lightning::chain::transaction::OutPoint`, of which nothing is known but that it is a value.
#[verifier::external_type_specification]
#[verifier::external_body]
pub struct ExOutPoint(lightning::chain::transaction::OutPoint);

/// `lightning::ln::chan_utils::CounterpartyCommitmentSecrets`, of which nothing is known but that it is a value.
#[verifier::external_type_specification]
#[verifier::external_body]
pub struct ExCounterpartyCommitmentSecrets(lightning::ln::chan_utils::CounterpartyCommitmentSecrets);

/// `lightning::util::errors::APIError`, of which nothing is known but that it is a value.
#[verifier::external_type_specification]
#[verifier::external_body]
pub struct ExAPIError(lightning::util::errors::APIError);

/// `Clone::clone` of `secp256k1_zkp::PublicKey`; nothing is claimed of the copy.
pub assume_specification[ <secp256k1_zkp::PublicKey as Clone>::clone ](
    value: &secp256k1_zkp::PublicKey,
) -> (copy: secp256k1_zkp::PublicKey)
;

/// `Clone::clone` of `secp256k1_zkp::SecretKey`; nothing is claimed of the copy.
pub assume_specification[ <secp256k1_zkp::SecretKey as Clone>::clone ](
    value: &secp256k1_zkp::SecretKey,
) -> (copy: secp256k1_zkp::SecretKey)
;

/// `Clone::clone` of `secp256k1_zkp::ecdsa::Signature`; nothing is claimed of the copy.
pub assume_specification[ <secp256k1_zkp::ecdsa::Signature as Clone>::clone ](
    value: &secp256k1_zkp::ecdsa::Signature,
) -> (copy: secp256k1_zkp::ecdsa::Signature)
;

/// `Clone::clone` of `secp256k1_zkp::EcdsaAdaptorSignature`; nothing is claimed of the copy.
pub assume_specification[ <secp256k1_zkp::EcdsaAdaptorSignature as Clone>::clone ](
    value: &secp256k1_zkp::EcdsaAdaptorSignature,
) -> (copy: secp256k1_zkp::EcdsaAdaptorSignature)
;

/// `Clone::clone` of `bitcoin::Script`; nothing is claimed of the copy.
pub assume_specification[ <bitcoin::Script as Clone>::clone ](value: &bitcoin::Script) -> (copy:
    bitcoin::Script)
;

/// `Clone::clone` of `bitcoin::Transaction`; nothing is claimed of the copy.
pub assume_specification[ <bitcoin::Transaction as Clone>::clone ](
    value: &bitcoin::Transaction,
) -> (copy: bitcoin::Transaction)
;

/// `Clone::clone` of `bitcoin::Txid`; nothing is claimed of the copy.
pub assume_specification[ <bitcoin::Txid as Clone>::clone ](value: &bitcoin::Txid) -> (copy:
    bitcoin::Txid)
;

/// `Clone::clone` of Lightning's `OutPoint`; nothing is claimed of the copy.
pub assume_specification[ <lightning::chain::transaction::OutPoint as Clone>::clone ](
    value: &lightning::chain::transaction::OutPoint,
) -> (copy: lightning::chain::transaction::OutPoint)
;

/// `Clone::clone` of `CounterpartyCommitmentSecrets`; nothing is claimed of the copy.
pub assume_specification[ <lightning::ln::chan_utils::CounterpartyCommitmentSecrets as Clone>::clone ](
    value: &lightning::ln::chan_utils::CounterpartyCommitmentSecrets,
) -> (copy: lightning::ln::chan_utils::CounterpartyCommitmentSecrets)
;

} // verus!
