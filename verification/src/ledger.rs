//! The boundary to the ledger SDK: opaque cryptographic handles (keypairs,
//! public keys, hashes, signed transactions) and the few pure calls the
//! dispatch logic makes on them.
//!
//! Each call stands behind a trusted item; the unverified shell performs the
//! network side (reference-value fetch, submission) and hands the results
//! back as values of these types.

use vstd::prelude::*;
use crate::model::{Address, TransferIntent};

verus! {

/// The SDK's signing keypair: a credential, opaque here.
#[verifier::external_type_specification]
#[verifier::external_body]
pub struct ExKeypair(solana_keypair::Keypair);

/// The SDK's public key, opaque here; `Address` holds its raw bytes.
#[verifier::external_type_specification]
#[verifier::external_body]
pub struct ExPubkey(solana_pubkey::Pubkey);

/// The SDK's 32-byte hash: the reference value a transaction is anchored
/// to, opaque here.
#[verifier::external_type_specification]
#[verifier::external_body]
pub struct ExHash(solana_hash::Hash);

/// The SDK's signed transaction, opaque here; only the ledger service
/// judges it.
#[verifier::external_type_specification]
#[verifier::external_body]
pub struct ExTransaction(solana_transaction::Transaction);

/// Whether a string is a well-formed base58 text of a 32-byte block
/// identifier. Decided by the SDK's parser; a function of the characters
/// alone.
pub uninterp spec fn is_blockhash_text(s: Seq<char>) -> bool;

/// Relies on `Hash`'s `FromStr` impl: parsing depends on the characters
/// alone and never panics.
#[verifier::external_body]
fn blockhash_parses(s: &str) -> (b: bool)
    ensures
        b == is_blockhash_text(s@),
{
    s.parse::<solana_hash::Hash>().is_ok()
}

/// Relies on `Signer::pubkey` for `Keypair`, which returns the public half
/// of the signing keypair and does not fail for an in-memory keypair.
#[verifier::external_body]
fn key_public(keypair: &solana_keypair::Keypair) -> (p: solana_pubkey::Pubkey)
{
    solana_signer::Signer::pubkey(keypair)
}

/// Relies on `Pubkey::to_bytes`: the 32 raw bytes of the key.
#[verifier::external_body]
fn pubkey_to_address(p: &solana_pubkey::Pubkey) -> (a: Address)
{
    Address { bytes: p.to_bytes() }
}

/// Relies on `Pubkey::new_from_array`: a key built from its 32 raw bytes.
#[verifier::external_body]
fn address_to_pubkey(a: &Address) -> (p: solana_pubkey::Pubkey)
{
    solana_pubkey::Pubkey::new_from_array(a.bytes)
}

/// Relies on `Signer::pubkey`, `system_instruction::transfer` and
/// `Transaction::new_signed_with_payer`, folded into one step so that no
/// input can make the signing panic: the instruction is always the fixed
/// two-account transfer out of the signing keypair's own public key, which
/// is therefore the message's one required signer and the payer, so the
/// keypair always signs successfully and the call returns on every input.
#[verifier::external_body]
fn sign_transfer(
    keypair: &solana_keypair::Keypair,
    to: &solana_pubkey::Pubkey,
    lamports: u64,
    reference: solana_hash::Hash,
) -> (tx: solana_transaction::Transaction)
{
    let payer = solana_signer::Signer::pubkey(keypair);
    let ix = solana_system_interface::instruction::transfer(&payer, to, lamports);
    solana_transaction::Transaction::new_signed_with_payer(
        &[ix],
        Some(&payer),
        &[keypair],
        reference,
    )
}

/// The public identity of a credential, as the plain bytes the contracts
/// speak of.
pub fn sender_address(keypair: &solana_keypair::Keypair) -> (a: Address)
{
    let p = key_public(keypair);
    pubkey_to_address(&p)
}

/// Whether an event's block identifier would decode; a dispatch for an
/// event whose identifier does not decode is never attempted.
pub fn well_formed_blockhash(s: &str) -> (b: bool)
    ensures
        b == is_blockhash_text(s@),
{
    blockhash_parses(s)
}

/// Constructs and signs the single-instruction transfer transaction for an
/// intent: stage two of the submit pipeline. The transfer is paid and
/// signed by the credential, out of its own account; the intent should
/// name that credential's identity as sender. The transaction itself is
/// opaque here, and only the ledger service judges it.
pub fn build_signed_transfer(
    keypair: &solana_keypair::Keypair,
    intent: &TransferIntent,
    reference: solana_hash::Hash,
) -> (tx: solana_transaction::Transaction)
{
    let to = address_to_pubkey(&intent.recipient);
    sign_transfer(keypair, &to, intent.lamports, reference)
}

} // verus!
