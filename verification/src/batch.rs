//! The batch fan-out sender: one submission per intent, started
//! concurrently, joined as a barrier, and the outcomes ranked by elapsed
//! duration, slowest first.
//!
//! The unverified shell fetches one shared reference value up front, spawns
//! the submissions, and collects each completion at the join barrier in
//! intent order; everything after the barrier — pairing completions with
//! their intents and ranking the outcomes — is decided and proved here.

use vstd::prelude::*;
use vstd::seq_lib::group_to_multiset_ensures;
use crate::model::{SubmitFailure, TransactionOutcome, TransferIntent};

verus! {

/// The raw completion of one spawned submission, as collected at the join
/// barrier: its elapsed wall-clock time and its verdict.
pub struct SubmitCompletion {
    pub duration_micros: u64,
    pub result: Result<String, SubmitFailure>,
}

/// What the whole batch returns: the total wall-clock time of the run and
/// one outcome per intent, ranked by duration, slowest first.
pub struct BatchReport {
    pub total_micros: u64,
    pub outcomes: Vec<TransactionOutcome>,
}

/// The outcome of one intent is built from that intent and its own
/// completion alone.
pub open spec fn outcome_of(
    intent: TransferIntent,
    completion: SubmitCompletion,
) -> TransactionOutcome {
    TransactionOutcome {
        from: intent.sender,
        duration_micros: completion.duration_micros,
        result: completion.result,
    }
}

/// The outcomes of a batch, in intent order, before ranking.
pub open spec fn outcomes_of(
    intents: Seq<TransferIntent>,
    completions: Seq<SubmitCompletion>,
) -> Seq<TransactionOutcome> {
    Seq::new(intents.len(), |i: int| outcome_of(intents[i], completions[i]))
}

/// Ranked by elapsed duration, descending: slowest first.
pub open spec fn sorted_descending(s: Seq<TransactionOutcome>) -> bool {
    forall|i: int, j: int|
        0 <= i <= j < s.len() ==> #[trigger] s[i].duration_micros >= #[trigger] s[j].duration_micros
}

/// Pairs each completion with its originating intent.
fn assemble(intents: &Vec<TransferIntent>, completions: Vec<SubmitCompletion>) -> (outcomes: Vec<
    TransactionOutcome,
>)
    requires
        completions@.len() == intents@.len(),
    ensures
        outcomes@ == outcomes_of(intents@, completions@),
{
    let mut comps = completions;
    let mut out: Vec<TransactionOutcome> = Vec::new();
    let mut i: usize = 0;
    while i < intents.len()
        invariant
            completions@.len() == intents@.len(),
            i <= intents@.len(),
            comps@ =~= completions@.skip(i as int),
            out@ =~= outcomes_of(intents@, completions@).take(i as int),
        decreases intents@.len() - i,
    {
        let ghost pre = comps@;
        let c = comps.remove(0);
        proof {
            assert(comps@ =~= pre.drop_first());
            assert(c == completions@[i as int]);
        }
        out.push(TransactionOutcome {
            from: intents[i].sender,
            duration_micros: c.duration_micros,
            result: c.result,
        });
        i = i + 1;
        proof {
            assert(comps@ =~= completions@.skip(i as int));
            assert(out@ =~= outcomes_of(intents@, completions@).take(i as int));
        }
    }
    proof {
        assert(out@ =~= outcomes_of(intents@, completions@));
    }
    out
}

/// Ranks outcomes by elapsed duration, descending, keeping exactly the
/// same collection of outcomes.
fn rank_descending(outcomes: Vec<TransactionOutcome>) -> (ranked: Vec<TransactionOutcome>)
    ensures
        ranked@.len() == outcomes@.len(),
        sorted_descending(ranked@),
        ranked@.to_multiset() == outcomes@.to_multiset(),
{
    broadcast use group_to_multiset_ensures;

    let mut rest = outcomes;
    let mut out: Vec<TransactionOutcome> = Vec::new();
    while rest.len() > 0
        invariant
            out@.to_multiset().add(rest@.to_multiset()) == outcomes@.to_multiset(),
            out@.len() + rest@.len() == outcomes@.len(),
            sorted_descending(out@),
            forall|i: int, j: int|
                0 <= i < out@.len() && 0 <= j < rest@.len() ==> #[trigger] out@[i].duration_micros
                    >= #[trigger] rest@[j].duration_micros,
        decreases rest@.len(),
    {
        let mut best: usize = 0;
        let mut k: usize = 1;
        while k < rest.len()
            invariant
                rest@.len() > 0,
                best < k,
                k <= rest@.len(),
                forall|j: int|
                    0 <= j < k ==> rest@[best as int].duration_micros >= #[trigger] rest@[j].duration_micros,
            decreases rest@.len() - k,
        {
            if rest[k].duration_micros > rest[best].duration_micros {
                best = k;
            }
            k = k + 1;
        }
        let ghost pre_rest = rest@;
        let ghost pre_out = out@;
        let x = rest.remove(best);
        out.push(x);
        proof {
            pre_rest.to_multiset_ensures();
            pre_out.to_multiset_ensures();
            assert(x == pre_rest[best as int]);
            assert(pre_rest.contains(x));
            assert(pre_rest.to_multiset().count(x) > 0);
            assert(rest@ == pre_rest.remove(best as int));
            assert(out@ == pre_out.push(x));
            assert(out@.to_multiset() =~= pre_out.to_multiset().insert(x));
            assert(rest@.to_multiset() =~= pre_rest.to_multiset().remove(x));
            assert(out@.to_multiset().add(rest@.to_multiset()) =~= pre_out.to_multiset().add(
                pre_rest.to_multiset(),
            ));
            assert forall|j: int| 0 <= j < rest@.len() implies x.duration_micros
                >= #[trigger] rest@[j].duration_micros by {
                if j < best {
                    assert(rest@[j] == pre_rest[j]);
                } else {
                    assert(rest@[j] == pre_rest[j + 1]);
                }
            }
        }
    }
    out
}

/// The join barrier's epilogue: one outcome per intent, each built from its
/// own completion alone, ranked by duration descending, beside the total
/// wall-clock time of the whole batch.
pub fn send_all(
    intents: &Vec<TransferIntent>,
    completions: Vec<SubmitCompletion>,
    total_micros: u64,
) -> (report: BatchReport)
    requires
        completions@.len() == intents@.len(),
    ensures
        report.total_micros == total_micros,
        report.outcomes@.len() == intents@.len(),
        sorted_descending(report.outcomes@),
        report.outcomes@.to_multiset() == outcomes_of(intents@, completions@).to_multiset(),
{
    let assembled = assemble(intents, completions);
    let ranked = rank_descending(assembled);
    BatchReport { total_micros, outcomes: ranked }
}

/// Law: a batch of N intents yields exactly N outcomes, and each outcome
/// of the ranked sequence originates in one of the intents: it is built
/// from that intent and that intent's own completion.
pub proof fn lemma_each_outcome_originates(
    intents: Seq<TransferIntent>,
    completions: Seq<SubmitCompletion>,
    ranked: Seq<TransactionOutcome>,
    j: int,
)
    requires
        completions.len() == intents.len(),
        ranked.to_multiset() == outcomes_of(intents, completions).to_multiset(),
        0 <= j < ranked.len(),
    ensures
        ranked.len() == intents.len(),
        exists|i: int|
            0 <= i < intents.len() && ranked[j] == outcome_of(intents[i], #[trigger] completions[i]),
{
    broadcast use group_to_multiset_ensures;

    ranked.to_multiset_ensures();
    outcomes_of(intents, completions).to_multiset_ensures();
    assert(ranked.len() == ranked.to_multiset().len());
    assert(outcomes_of(intents, completions).len() == outcomes_of(
        intents,
        completions,
    ).to_multiset().len());
    assert(ranked.contains(ranked[j]));
    assert(ranked.to_multiset().count(ranked[j]) > 0);
    assert(outcomes_of(intents, completions).contains(ranked[j]));
    let i = choose|i: int|
        0 <= i < outcomes_of(intents, completions).len() && outcomes_of(intents, completions)[i]
            == ranked[j];
    assert(ranked[j] == outcome_of(intents[i], completions[i]));
}

/// Law: failure isolation. The outcome paired with one intent depends on
/// that intent's own completion alone: however the other completions went
/// — including a failure among them — its outcome is the same.
pub proof fn lemma_failure_isolated(
    intents: Seq<TransferIntent>,
    completions_a: Seq<SubmitCompletion>,
    completions_b: Seq<SubmitCompletion>,
    i: int,
)
    requires
        completions_a.len() == intents.len(),
        completions_b.len() == intents.len(),
        0 <= i < intents.len(),
        completions_a[i] == completions_b[i],
    ensures
        outcomes_of(intents, completions_a)[i] == outcomes_of(intents, completions_b)[i],
{
}

} // verus!
