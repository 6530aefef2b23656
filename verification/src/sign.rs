//! Assembling and signing the top-up transaction.
//!
//! The transaction itself is plain verified data; the signature and its
//! RLP serialization come from the ethers crates behind one trusted
//! declaration. Both are deterministic: whether the key is accepted,
//! and the signed payload itself, are functions of the key string and
//! the transaction fields alone, so each is given a name that the
//! pipeline's contracts speak of.

use crate::address::Address;
use crate::error::PipelineError;
use ethers_core::types::transaction::eip2718::TypedTransaction;
use ethers_core::types::Address as EthAddress;
use ethers_core::types::TransactionRequest;
use ethers_signers::LocalWallet;
use ethers_signers::WalletError;
use vstd::prelude::*;

verus! {

/// An assembled but unsigned legacy transaction, chain-ID bound.
pub struct UnsignedTransaction {
    pub from: Address,
    pub to: Address,
    /// Native value moved, in wei.
    pub value: u128,
    /// Gas limit, margins already applied.
    pub gas: u128,
    /// Gas price, margins already applied.
    pub gas_price: u128,
    pub nonce: u128,
    pub chain_id: u64,
    /// Call payload; empty for a plain native transfer.
    pub data: Vec<u8>,
}

#[verifier::external_type_specification]
#[verifier::external_body]
pub struct ExWalletError(WalletError);

/// Whether a chain id can be bound into a signature at all: the
/// replay-protected recovery value is `chain_id * 2 + 35`, computed in
/// 64 bits, so larger ids would overflow it. A machine limit of the
/// signature scheme, not a policy.
pub open spec fn chain_id_signable(chain_id: u64) -> bool {
    chain_id <= (u64::MAX - 36) / 2
}

/// Whether the signer accepts this hex-encoded private key: it must
/// decode to a valid scalar. A function of the key string alone.
pub uninterp spec fn key_accepted(key: Seq<char>) -> bool;

/// The signed, broadcast-ready serialization that the accepted key
/// produces for a legacy transaction with exactly these fields. The
/// signature scheme is deterministic, so this is a function of the key
/// and the fields alone.
pub uninterp spec fn signed_payload_of(
    key: Seq<char>,
    from: Seq<u8>,
    to: Seq<u8>,
    value: u128,
    gas: u128,
    gas_price: u128,
    nonce: u128,
    chain_id: u64,
    data: Seq<u8>,
) -> Seq<u8>;

/// Relies on ethers_signers' LocalWallet and ethers_core's
/// TransactionRequest: parses the hex private key, assembles a legacy
/// transaction with exactly these fields, signs it EIP-155 bound to its
/// chain ID (deterministically, per RFC 6979), and serializes it with
/// its signature. Fails exactly when the key does not decode to a
/// valid signing key. The chain id must be small enough for its
/// recovery value to fit 64 bits, or the signer would overflow.
#[verifier::external_body]
fn sign_and_serialize(key: &str, tx: &UnsignedTransaction) -> (r: Result<Vec<u8>, WalletError>)
    requires
        chain_id_signable(tx.chain_id),
    ensures
        r is Ok <==> key_accepted(key@),
        r matches Ok(b) ==> b@ == signed_payload_of(
            key@,
            tx.from@,
            tx.to@,
            tx.value,
            tx.gas,
            tx.gas_price,
            tx.nonce,
            tx.chain_id,
            tx.data@,
        ),
{
    let wallet: LocalWallet = key.parse()?;
    let request = TransactionRequest::new()
        .from(EthAddress::from_slice(tx.from.bytes()))
        .to(EthAddress::from_slice(tx.to.bytes()))
        .gas(tx.gas).gas_price(tx.gas_price).value(tx.value)
        .data(tx.data.clone()).nonce(tx.nonce).chain_id(tx.chain_id);
    let typed: TypedTransaction = request.into();
    let sig = wallet.sign_transaction_sync(&typed)?;
    Ok(typed.rlp_signed(&sig).to_vec())
}

/// Signs `tx` with the configured private key and returns the payload
/// ready for broadcast.
///
/// Succeeds exactly when the signer accepts the key, and the payload is
/// then the signed serialization of exactly this transaction; a
/// rejected key fails with `Signing` and nothing else. The caller must
/// have checked that the chain id is signable at all.
pub fn sign_transaction(key: &str, tx: &UnsignedTransaction) -> (r: Result<Vec<u8>, PipelineError>)
    requires
        chain_id_signable(tx.chain_id),
    ensures
        r is Ok <==> key_accepted(key@),
        r matches Ok(b) ==> b@ == signed_payload_of(
            key@,
            tx.from@,
            tx.to@,
            tx.value,
            tx.gas,
            tx.gas_price,
            tx.nonce,
            tx.chain_id,
            tx.data@,
        ),
        r matches Err(e) ==> e == PipelineError::Signing,
{
    match sign_and_serialize(key, tx) {
        Ok(payload) => Ok(payload),
        Err(_) => Err(PipelineError::Signing),
    }
}

} // verus!
