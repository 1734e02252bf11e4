//! The transaction submitter: one transfer intent driven through its three
//! fallible stages — fetch a reference value, construct and sign, submit
//! and confirm — with each failure contained in the task's own outcome.
//!
//! The unverified shell performs the two network stages and hands their
//! results back; every decision between stages is made here. A failure
//! never unwinds a sibling task or the coordinator: it becomes data.

use vstd::prelude::*;
use crate::ledger;
use crate::model::{Address, SubmitFailure, TransactionOutcome, TransferIntent};

verus! {

/// Where a submission stands: before the reference-value fetch, after
/// signing while the ledger service decides, or finished.
#[derive(Clone, Copy, PartialEq, Eq, Structural, Debug)]
pub enum SubmitStage {
    AwaitingReference,
    AwaitingVerdict,
    Finished,
}

/// What the shell must do next for a task: send the signed transaction
/// and report the verdict, or nothing — the task is finished and the
/// outcome is final.
pub enum SubmitStep {
    Send { transaction: solana_transaction::Transaction },
    Finish { outcome: TransactionOutcome },
}

/// One submission attempt for one intent. The intent is consumed by at most
/// one pass through the stages; retries belong to the caller.
pub struct SubmitTask {
    pub intent: TransferIntent,
    pub stage: SubmitStage,
}

/// The outcome reported when the reference-value fetch fails: the failure
/// aborts only this invocation and names the fetch, not the submission.
pub open spec fn fetch_failure_outcome(
    intent: TransferIntent,
    message: String,
    elapsed_micros: u64,
) -> TransactionOutcome {
    TransactionOutcome {
        from: intent.sender,
        duration_micros: elapsed_micros,
        result: Err(SubmitFailure::ReferenceFetch { message }),
    }
}

/// The outcome reported when the ledger service has given its verdict,
/// success or failure, exactly as handed back.
pub open spec fn verdict_outcome(
    intent: TransferIntent,
    verdict: Result<String, SubmitFailure>,
    elapsed_micros: u64,
) -> TransactionOutcome {
    TransactionOutcome {
        from: intent.sender,
        duration_micros: elapsed_micros,
        result: verdict,
    }
}

impl SubmitTask {
    /// Opens a submission attempt for one intent.
    pub fn new(intent: TransferIntent) -> (t: SubmitTask)
        ensures
            t.intent == intent,
            t.stage is AwaitingReference,
    {
        SubmitTask { intent, stage: SubmitStage::AwaitingReference }
    }

    /// Stage one resolved: either a current reference value arrived and the
    /// transaction is constructed, signed and handed out for submission, or
    /// the fetch failed and the task finishes with that failure alone.
    ///
    /// The credential must be the one whose public identity the intent
    /// names as sender; `elapsed_micros` is the wall-clock time spent so
    /// far, recorded only if the task finishes here.
    pub fn on_reference(
        &mut self,
        keypair: &solana_keypair::Keypair,
        fetched: Result<solana_hash::Hash, String>,
        elapsed_micros: u64,
    ) -> (step: SubmitStep)
        requires
            old(self).stage is AwaitingReference,
        ensures
            final(self).intent == old(self).intent,
            fetched is Ok ==> final(self).stage is AwaitingVerdict && step is Send,
            fetched matches Err(message) ==> {
                &&& final(self).stage is Finished
                &&& step == (SubmitStep::Finish {
                    outcome: fetch_failure_outcome(old(self).intent, message, elapsed_micros),
                })
            },
    {
        match fetched {
            Ok(reference) => {
                let transaction = ledger::build_signed_transfer(keypair, &self.intent, reference);
                self.stage = SubmitStage::AwaitingVerdict;
                SubmitStep::Send { transaction }
            }
            Err(message) => {
                self.stage = SubmitStage::Finished;
                SubmitStep::Finish {
                    outcome: TransactionOutcome {
                        from: self.intent.sender,
                        duration_micros: elapsed_micros,
                        result: Err(SubmitFailure::ReferenceFetch { message }),
                    },
                }
            }
        }
    }

    /// Stage three resolved: the ledger service accepted or rejected the
    /// sent transaction. The verdict is recorded as data, never thrown;
    /// `elapsed_micros` is the end-to-end wall-clock time of the attempt.
    ///
    /// A reference-fetch failure is never reported here, since it ends the
    /// task at stage one and never reaches the ledger service.
    pub fn on_verdict(
        &mut self,
        verdict: Result<String, SubmitFailure>,
        elapsed_micros: u64,
    ) -> (outcome: TransactionOutcome)
        requires
            old(self).stage is AwaitingVerdict,
            !(verdict matches Err(SubmitFailure::ReferenceFetch { .. })),
        ensures
            final(self).intent == old(self).intent,
            final(self).stage is Finished,
            outcome == verdict_outcome(old(self).intent, verdict, elapsed_micros),
    {
        self.stage = SubmitStage::Finished;
        TransactionOutcome {
            from: self.intent.sender,
            duration_micros: elapsed_micros,
            result: verdict,
        }
    }
}

/// Law: whatever the stages return, an outcome a submit task can emit carries
/// the address the intent names as sender — the credential's public
/// identity — and exactly the elapsed time it was handed.
pub proof fn lemma_outcome_address(
    intent: TransferIntent,
    message: String,
    verdict: Result<String, SubmitFailure>,
    elapsed_micros: u64,
)
    ensures
        fetch_failure_outcome(intent, message, elapsed_micros).from == intent.sender,
        fetch_failure_outcome(intent, message, elapsed_micros).duration_micros == elapsed_micros,
        verdict_outcome(intent, verdict, elapsed_micros).from == intent.sender,
        verdict_outcome(intent, verdict, elapsed_micros).duration_micros == elapsed_micros,
{
}

} // verus!
