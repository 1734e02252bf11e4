//! Plain-value model of the dispatcher's data: addresses, block events,
//! transfer intents, and submission outcomes.
//!
//! The feed and the ledger service exchange opaque handles (keys, hashes,
//! signed transactions); what the decision logic reads from them is held
//! here as plain values, so every rule over them can be stated and proved.

use vstd::prelude::*;

verus! {

/// A 32-byte account identity: the public half of a credential, or a
/// recipient. Held as raw bytes so that contracts can speak of it directly.
#[derive(Clone, Copy, PartialEq, Eq, Debug)]
pub struct Address {
    pub bytes: [u8; 32],
}

/// Where the event feed lives: the stream address and an opaque
/// authorization token. Created once from configuration and owned by the
/// feed client for its lifetime.
#[derive(PartialEq, Eq, Debug)]
pub struct Endpoint {
    pub url: String,
    pub token: String,
}

/// How finalized an event must be before the feed delivers it.
#[derive(Clone, Copy, PartialEq, Eq, Structural, Debug)]
pub enum CommitmentChoice {
    Processed,
    Confirmed,
    Finalized,
}

/// The declarative subscription, sent once at subscription start: this
/// consumer asks for block-metadata events only, at a commitment level.
#[derive(Clone, Copy, PartialEq, Eq, Structural, Debug)]
pub struct SubscriptionFilter {
    pub commitment: CommitmentChoice,
}

/// One block-metadata event as delivered by the feed: a slot number and an
/// opaque block identifier, consumed exactly once by the trigger predicate.
#[derive(PartialEq, Eq, Debug)]
pub struct BlockEvent {
    pub slot: u64,
    pub blockhash: String,
}

/// One transfer instruction: who signs, who receives, and how much, in base
/// units. Immutable once constructed; submitted at most once.
#[derive(Clone, Copy, PartialEq, Eq, Debug)]
pub struct TransferIntent {
    pub sender: Address,
    pub recipient: Address,
    pub lamports: u64,
}

/// Why a single submission failed. Each variant aborts only its own
/// invocation; none unwinds a sibling task or the coordinator.
#[derive(PartialEq, Eq, Debug)]
pub enum SubmitFailure {
    /// Fetching the current reference value (recent blockhash) failed.
    ReferenceFetch { message: String },
    /// Sending the signed transaction failed.
    Submission { message: String },
    /// The transaction was sent but confirmation failed.
    Confirmation { message: String },
}

/// The terminal result of one submission attempt: the originating address,
/// the elapsed wall-clock time in microseconds, and either a submitted
/// transaction identifier or a failure description.
#[derive(PartialEq, Eq, Debug)]
pub struct TransactionOutcome {
    pub from: Address,
    pub duration_micros: u64,
    pub result: Result<String, SubmitFailure>,
}

} // verus!
