//! The dispatch coordinator: consumes the event feed in delivery order,
//! evaluates the trigger predicate on each block-metadata event, and for
//! each qualifying event emits a dispatch record — the instruction to start
//! one independent submission — without ever blocking on one.
//!
//! A stream-level error item ends the run: the coordinator transitions to
//! `Stopped` and reads no further. In-flight dispatches are neither awaited
//! nor cancelled; a failure inside one never reaches the coordinator.

use vstd::prelude::*;
use crate::ledger;
use crate::model::{BlockEvent, TransferIntent};
use crate::trigger::TriggerRule;

verus! {

/// One item of the feed, as the subscription delivers it: a block-metadata
/// event, an update of a kind this consumer ignores, or a stream-level
/// error that terminates the sequence.
pub enum FeedMessage {
    BlockMeta { event: BlockEvent },
    OtherKind,
    StreamError { message: String },
}

/// Why a run ended: the feed itself failed, or a qualifying event carried
/// a block identifier that does not decode.
pub enum StopCause {
    StreamError { message: String },
    MalformedBlockhash { slot: u64 },
}

/// One dispatch as initiated: the intent to submit, and the slot and block
/// identifier of the event that triggered it, for correlation.
pub struct DispatchRecord {
    pub intent: TransferIntent,
    pub slot: u64,
    pub blockhash: String,
}

/// What one feed item makes the coordinator do: start a submission, do
/// nothing, or stop listening.
pub enum DispatchAction {
    Dispatch { record: DispatchRecord },
    Ignore,
    Stop { cause: StopCause },
}

/// Listening, or stopped for good: the transient per-event dispatch takes
/// place within a single step and needs no state of its own.
#[derive(Clone, Copy, PartialEq, Eq, Structural, Debug)]
pub enum CoordinatorState {
    Listening,
    Stopped,
}

/// The coordinator: a trigger rule, the fixed transfer parameters every
/// dispatch uses, the listening state, and a count of the events on which
/// the predicate has been evaluated.
pub struct DispatchCoordinator {
    pub rule: TriggerRule,
    pub template: TransferIntent,
    pub state: CoordinatorState,
    pub events_seen: u64,
}

impl DispatchCoordinator {
    pub open spec fn wf(self) -> bool {
        self.rule.wf()
    }

    /// One step of the state machine: what a single feed item does to the
    /// coordinator, and what it makes it do.
    pub open spec fn step_of(self, m: FeedMessage) -> (DispatchCoordinator, DispatchAction) {
        match m {
            FeedMessage::OtherKind => (self, DispatchAction::Ignore),
            FeedMessage::StreamError { message } => (
                DispatchCoordinator { state: CoordinatorState::Stopped, ..self },
                DispatchAction::Stop { cause: StopCause::StreamError { message } },
            ),
            FeedMessage::BlockMeta { event } => {
                let seen = DispatchCoordinator {
                    events_seen: (self.events_seen + 1) as u64,
                    ..self
                };
                if !self.rule.triggers(event.slot) {
                    (seen, DispatchAction::Ignore)
                } else if ledger::is_blockhash_text(event.blockhash@) {
                    (
                        seen,
                        DispatchAction::Dispatch {
                            record: DispatchRecord {
                                intent: self.template,
                                slot: event.slot,
                                blockhash: event.blockhash,
                            },
                        },
                    )
                } else {
                    (
                        DispatchCoordinator { state: CoordinatorState::Stopped, ..seen },
                        DispatchAction::Stop {
                            cause: StopCause::MalformedBlockhash { slot: event.slot },
                        },
                    )
                }
            }
        }
    }

    /// The coordinator after a whole sequence of feed items, read in
    /// delivery order; items after a stop are never read.
    pub open spec fn run_of(self, msgs: Seq<FeedMessage>) -> DispatchCoordinator
        decreases msgs.len(),
    {
        if msgs.len() == 0 || !(self.state is Listening) {
            self
        } else {
            self.step_of(msgs[0]).0.run_of(msgs.drop_first())
        }
    }

    /// The dispatches a whole sequence of feed items initiates, in the
    /// order of initiation.
    pub open spec fn records_of(self, msgs: Seq<FeedMessage>) -> Seq<DispatchRecord>
        decreases msgs.len(),
    {
        if msgs.len() == 0 || !(self.state is Listening) {
            Seq::empty()
        } else {
            let rest = self.step_of(msgs[0]).0.records_of(msgs.drop_first());
            match self.step_of(msgs[0]).1 {
                DispatchAction::Dispatch { record } => seq![record] + rest,
                _ => rest,
            }
        }
    }

    /// Opens a coordinator over a rule and the fixed transfer parameters
    /// of the stream case.
    pub fn new(rule: TriggerRule, template: TransferIntent) -> (c: DispatchCoordinator)
        requires
            rule.wf(),
        ensures
            c == (DispatchCoordinator {
                rule,
                template,
                state: CoordinatorState::Listening,
                events_seen: 0,
            }),
            c.wf(),
    {
        DispatchCoordinator { rule, template, state: CoordinatorState::Listening, events_seen: 0 }
    }

    /// Reacts to one feed item, exactly as the step relation says. The
    /// predicate is pure and blocks nothing: a `Dispatch` action is an
    /// instruction to the caller to start a submission and read on without
    /// waiting for it.
    pub fn on_message(&mut self, m: FeedMessage) -> (a: DispatchAction)
        requires
            old(self).wf(),
            old(self).state is Listening,
            old(self).events_seen < u64::MAX,
        ensures
            *final(self) == old(self).step_of(m).0,
            a == old(self).step_of(m).1,
            final(self).wf(),
    {
        match m {
            FeedMessage::OtherKind => DispatchAction::Ignore,
            FeedMessage::StreamError { message } => {
                self.state = CoordinatorState::Stopped;
                DispatchAction::Stop { cause: StopCause::StreamError { message } }
            }
            FeedMessage::BlockMeta { event } => {
                self.events_seen = self.events_seen + 1;
                if !self.rule.should_dispatch(&event) {
                    DispatchAction::Ignore
                } else if ledger::well_formed_blockhash(event.blockhash.as_str()) {
                    DispatchAction::Dispatch {
                        record: DispatchRecord {
                            intent: self.template,
                            slot: event.slot,
                            blockhash: event.blockhash,
                        },
                    }
                } else {
                    self.state = CoordinatorState::Stopped;
                    DispatchAction::Stop {
                        cause: StopCause::MalformedBlockhash { slot: event.slot },
                    }
                }
            }
        }
    }

    /// Consumes feed items in order until one stops the run or the list is
    /// exhausted, returning the dispatches initiated, in initiation order.
    pub fn consume(&mut self, messages: Vec<FeedMessage>) -> (dispatches: Vec<DispatchRecord>)
        requires
            old(self).wf(),
            old(self).events_seen + messages@.len() <= u64::MAX,
        ensures
            *final(self) == old(self).run_of(messages@),
            dispatches@ == old(self).records_of(messages@),
    {
        let mut msgs = messages;
        let mut out: Vec<DispatchRecord> = Vec::new();
        while msgs.len() > 0 && self.state == CoordinatorState::Listening
            invariant
                self.wf(),
                self.events_seen + msgs@.len() <= u64::MAX,
                old(self).run_of(messages@) == self.run_of(msgs@),
                old(self).records_of(messages@) == out@ + self.records_of(msgs@),
            decreases msgs@.len(),
        {
            let ghost pre = *self;
            let ghost pre_msgs = msgs@;
            let m = msgs.remove(0);
            proof {
                assert(msgs@ =~= pre_msgs.drop_first());
            }
            let a = self.on_message(m);
            match a {
                DispatchAction::Dispatch { record } => {
                    proof {
                        assert(pre.records_of(pre_msgs) =~= seq![record] + self.records_of(
                            msgs@,
                        ));
                    }
                    let ghost pre_out = out@;
                    out.push(record);
                    proof {
                        assert(out@ =~= pre_out + seq![record]);
                        assert(pre_out + (seq![record] + self.records_of(msgs@)) =~= out@
                            + self.records_of(msgs@));
                    }
                }
                _ => {}
            }
        }
        proof {
            if msgs@.len() == 0 || !(self.state is Listening) {
                assert(self.run_of(msgs@) == *self);
                assert(self.records_of(msgs@) =~= Seq::<DispatchRecord>::empty());
                assert(out@ + Seq::<DispatchRecord>::empty() =~= out@);
            }
        }
        out
    }
}

/// A feed item that cannot stop a listening run: a decodable qualifying
/// event, a non-qualifying event, or an update kind this consumer ignores.
pub open spec fn cannot_stop(rule: TriggerRule, m: FeedMessage) -> bool {
    match m {
        FeedMessage::BlockMeta { event } => rule.triggers(event.slot)
            ==> ledger::is_blockhash_text(event.blockhash@),
        FeedMessage::OtherKind => true,
        FeedMessage::StreamError { .. } => false,
    }
}

/// The slots of the qualifying block-metadata events of a feed, in
/// delivery order.
pub open spec fn triggering_event_slots(rule: TriggerRule, msgs: Seq<FeedMessage>) -> Seq<u64>
    decreases msgs.len(),
{
    if msgs.len() == 0 {
        Seq::empty()
    } else {
        let rest = triggering_event_slots(rule, msgs.drop_first());
        match msgs[0] {
            FeedMessage::BlockMeta { event } => if rule.triggers(event.slot) {
                seq![event.slot] + rest
            } else {
                rest
            },
            _ => rest,
        }
    }
}

/// Law: no dispatch without a trigger. Whatever the feed delivered, every
/// record a run emits is for a slot the rule triggers on, and submits the
/// coordinator's fixed transfer parameters — an event that does not satisfy
/// the predicate never causes a submission.
pub proof fn lemma_no_dispatch_without_trigger(
    c: DispatchCoordinator,
    msgs: Seq<FeedMessage>,
    i: int,
)
    requires
        0 <= i < c.records_of(msgs).len(),
    ensures
        c.rule.triggers(c.records_of(msgs)[i].slot),
        c.records_of(msgs)[i].intent == c.template,
    decreases msgs.len(),
{
    let next = c.step_of(msgs[0]).0;
    assert(next.rule == c.rule && next.template == c.template);
    match c.step_of(msgs[0]).1 {
        DispatchAction::Dispatch { record } => {
            if i > 0 {
                lemma_no_dispatch_without_trigger(next, msgs.drop_first(), i - 1);
            }
        }
        _ => {
            lemma_no_dispatch_without_trigger(next, msgs.drop_first(), i);
        }
    }
}

/// Law: a feed that delivers some number of decodable block-metadata
/// events and then terminates with a stream-level error causes exactly one
/// predicate evaluation per event and a clean transition to `Stopped`.
pub proof fn lemma_stream_error_stops_after_events(c: DispatchCoordinator, msgs: Seq<FeedMessage>)
    requires
        c.state is Listening,
        msgs.len() >= 1,
        c.events_seen + msgs.len() - 1 <= u64::MAX,
        forall|i: int|
            0 <= i < msgs.len() - 1 ==> (#[trigger] msgs[i]) matches FeedMessage::BlockMeta { .. },
        forall|i: int| 0 <= i < msgs.len() - 1 ==> cannot_stop(c.rule, #[trigger] msgs[i]),
        msgs[msgs.len() - 1] matches FeedMessage::StreamError { .. },
    ensures
        c.run_of(msgs).state is Stopped,
        c.run_of(msgs).events_seen == c.events_seen + msgs.len() - 1,
    decreases msgs.len(),
{
    let next = c.step_of(msgs[0]).0;
    if msgs.len() == 1 {
        assert(next.state is Stopped);
        assert(next.run_of(msgs.drop_first()) == next);
    } else {
        assert(msgs[0] matches FeedMessage::BlockMeta { .. });
        assert(cannot_stop(c.rule, msgs[0]));
        assert(next.state is Listening);
        assert(next.events_seen == c.events_seen + 1);
        let rest = msgs.drop_first();
        assert(rest[rest.len() - 1] == msgs[msgs.len() - 1]);
        assert forall|i: int|
            0 <= i < rest.len() - 1 implies (#[trigger] rest[i]) matches FeedMessage::BlockMeta {
            ..
        } && cannot_stop(next.rule, rest[i]) by {
            assert(rest[i] == msgs[i + 1]);
        }
        lemma_stream_error_stops_after_events(next, rest);
    }
}

/// Law: dispatch initiation order follows feed delivery order. Over a feed
/// of items none of which stops the run, the records list exactly the
/// qualifying slots of the delivered events, in delivery order.
pub proof fn lemma_dispatch_order(c: DispatchCoordinator, msgs: Seq<FeedMessage>)
    requires
        c.state is Listening,
        forall|i: int| 0 <= i < msgs.len() ==> cannot_stop(c.rule, #[trigger] msgs[i]),
    ensures
        c.records_of(msgs).map_values(|r: DispatchRecord| r.slot) == triggering_event_slots(
            c.rule,
            msgs,
        ),
    decreases msgs.len(),
{
    let f = |r: DispatchRecord| r.slot;
    if msgs.len() == 0 {
        assert(c.records_of(msgs).map_values(f) =~= triggering_event_slots(c.rule, msgs));
    } else {
        let next = c.step_of(msgs[0]).0;
        assert(cannot_stop(c.rule, msgs[0]));
        assert(next.state is Listening && next.rule == c.rule);
        lemma_dispatch_order(next, msgs.drop_first());
        let rest_records = next.records_of(msgs.drop_first());
        let rest_slots = triggering_event_slots(c.rule, msgs.drop_first());
        match c.step_of(msgs[0]).1 {
            DispatchAction::Dispatch { record } => {
                assert(c.records_of(msgs) == seq![record] + rest_records);
                assert(triggering_event_slots(c.rule, msgs) == seq![record.slot] + rest_slots);
                assert((seq![record] + rest_records).map_values(f) =~= seq![record.slot]
                    + rest_records.map_values(f));
            }
            _ => {
                assert(c.records_of(msgs) == rest_records);
                assert(triggering_event_slots(c.rule, msgs) == rest_slots);
            }
        }
    }
}

} // verus!
