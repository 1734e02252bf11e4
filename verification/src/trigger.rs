//! The trigger predicate: a pure, total rule deciding whether an observed
//! block event should cause a dispatch.
//!
//! The reference policy dispatches when `slot % 10 == 5`; the modulus and
//! offset are configuration rather than hard-coded constants.

use vstd::prelude::*;
use crate::model::BlockEvent;

verus! {

/// A sampling rule over slot numbers: dispatch when
/// `slot % modulus == offset`.
#[derive(Clone, Copy, PartialEq, Eq, Structural, Debug)]
pub struct TriggerRule {
    pub modulus: u64,
    pub offset: u64,
}

impl TriggerRule {
    /// A rule is well formed when the offset is a possible remainder.
    pub open spec fn wf(self) -> bool {
        self.modulus > 0 && self.offset < self.modulus
    }

    /// What the rule decides for a given slot.
    pub open spec fn triggers(self, slot: u64) -> bool {
        slot % self.modulus == self.offset
    }

    /// Builds a rule, rejecting an offset that no slot could ever match.
    pub fn new(modulus: u64, offset: u64) -> (r: Option<TriggerRule>)
        ensures
            r is Some <==> modulus > 0 && offset < modulus,
            r matches Some(rule) ==> rule == (TriggerRule { modulus, offset }) && rule.wf(),
    {
        if modulus > 0 && offset < modulus {
            Some(TriggerRule { modulus, offset })
        } else {
            None
        }
    }

    /// The reference policy: every slot congruent to 5 modulo 10.
    pub fn sample_every_ten() -> (r: TriggerRule)
        ensures
            r == (TriggerRule { modulus: 10u64, offset: 5u64 }),
            r.wf(),
    {
        TriggerRule { modulus: 10, offset: 5 }
    }

    /// Evaluates the predicate: pure, total, no side effects.
    pub fn should_dispatch(&self, event: &BlockEvent) -> (b: bool)
        requires
            self.wf(),
        ensures
            b == self.triggers(event.slot),
    {
        event.slot % self.modulus == self.offset
    }
}

} // verus!
