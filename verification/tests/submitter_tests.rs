use solana_keypair::Keypair;
use solana_signer::Signer;
use stream_dispatch::ledger::{build_signed_transfer, sender_address, well_formed_blockhash};
use stream_dispatch::model::{Address, SubmitFailure, TransferIntent};
use stream_dispatch::submitter::{SubmitStage, SubmitStep, SubmitTask};

const GOOD_HASH: &str = "11111111111111111111111111111111";

fn intent_for(keypair: &Keypair) -> TransferIntent {
    TransferIntent {
        sender: sender_address(keypair),
        recipient: Address { bytes: [7u8; 32] },
        lamports: 1_234,
    }
}

#[test]
fn sender_address_is_the_keypair_public_identity() {
    let keypair = Keypair::new();
    let address = sender_address(&keypair);
    assert_eq!(address.bytes, keypair.pubkey().to_bytes());
}

#[test]
fn blockhash_wellformedness_follows_the_parser() {
    assert!(well_formed_blockhash(GOOD_HASH));
    assert!(!well_formed_blockhash(""));
    assert!(!well_formed_blockhash("not base58 at all!"));
    assert!(!well_formed_blockhash("abc"));
}

#[test]
fn fetch_failure_finishes_with_reference_fetch_outcome() {
    let keypair = Keypair::new();
    let intent = intent_for(&keypair);
    let mut task = SubmitTask::new(intent);
    assert_eq!(task.stage, SubmitStage::AwaitingReference);
    let step = task.on_reference(&keypair, Err(String::from("no route")), 42);
    match step {
        SubmitStep::Finish { outcome } => {
            assert_eq!(outcome.from, intent.sender);
            assert_eq!(outcome.duration_micros, 42);
            assert_eq!(
                outcome.result,
                Err(SubmitFailure::ReferenceFetch { message: String::from("no route") })
            );
        }
        SubmitStep::Send { .. } => panic!("a failed fetch cannot reach submission"),
    }
    assert_eq!(task.stage, SubmitStage::Finished);
}

#[test]
fn successful_stages_report_the_ledger_verdict() {
    let keypair = Keypair::new();
    let intent = intent_for(&keypair);
    let mut task = SubmitTask::new(intent);
    let reference = GOOD_HASH.parse().expect("valid reference value");
    let step = task.on_reference(&keypair, Ok(reference), 0);
    match step {
        SubmitStep::Send { transaction } => {
            assert_eq!(transaction.signatures.len(), 1);
            assert_eq!(transaction.message.account_keys[0], keypair.pubkey());
        }
        SubmitStep::Finish { .. } => panic!("a fetched reference leads to submission"),
    }
    assert_eq!(task.stage, SubmitStage::AwaitingVerdict);
    let outcome = task.on_verdict(Ok(String::from("sig123")), 30_000);
    assert_eq!(outcome.from, intent.sender);
    assert_eq!(outcome.duration_micros, 30_000);
    assert_eq!(outcome.result, Ok(String::from("sig123")));
    assert_eq!(task.stage, SubmitStage::Finished);
}

#[test]
fn rejected_submission_is_data_not_a_fault() {
    let keypair = Keypair::new();
    let intent = intent_for(&keypair);
    let mut task = SubmitTask::new(intent);
    let reference = GOOD_HASH.parse().expect("valid reference value");
    let _ = task.on_reference(&keypair, Ok(reference), 0);
    let failure = SubmitFailure::Submission { message: String::from("blockhash expired") };
    let outcome = task.on_verdict(Err(failure), 9_999);
    assert_eq!(outcome.from, intent.sender);
    assert_eq!(
        outcome.result,
        Err(SubmitFailure::Submission { message: String::from("blockhash expired") })
    );
}

#[test]
fn failed_confirmation_is_distinguished_from_failed_submission() {
    let keypair = Keypair::new();
    let intent = intent_for(&keypair);
    let mut task = SubmitTask::new(intent);
    let reference = GOOD_HASH.parse().expect("valid reference value");
    let _ = task.on_reference(&keypair, Ok(reference), 0);
    let failure = SubmitFailure::Confirmation { message: String::from("not confirmed in time") };
    let outcome = task.on_verdict(Err(failure), 60_000);
    assert_eq!(outcome.from, intent.sender);
    assert_eq!(
        outcome.result,
        Err(SubmitFailure::Confirmation { message: String::from("not confirmed in time") })
    );
    assert_ne!(
        outcome.result,
        Err(SubmitFailure::Submission { message: String::from("not confirmed in time") })
    );
}

#[test]
fn signed_transfer_names_payer_and_recipient() {
    let keypair = Keypair::new();
    let intent = intent_for(&keypair);
    let reference = GOOD_HASH.parse().expect("valid reference value");
    let transaction = build_signed_transfer(&keypair, &intent, reference);
    assert_eq!(transaction.message.account_keys[0], keypair.pubkey());
    let recipient = solana_pubkey::Pubkey::new_from_array(intent.recipient.bytes);
    assert!(transaction.message.account_keys.contains(&recipient));
    assert_eq!(transaction.message.recent_blockhash, reference);
    assert!(transaction.verify().is_ok());
}
