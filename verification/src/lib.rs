//! A stream-reactive transaction dispatcher.
//!
//! A long-lived client subscribes to a feed of ledger block-metadata events,
//! evaluates a trigger predicate against each event without blocking the
//! feed, and on trigger dispatches an independent fund-transfer submission.
//! A batch fan-out sender applies the same submit pipeline to a fixed list
//! of transfer intents and ranks the outcomes by elapsed duration.
//!
//! The decision logic lives here, verified; the asynchronous network edge
//! (feed subscription, reference-value fetch, transaction submission) is
//! driven by an unverified shell that feeds results back as plain values.

pub mod batch;
pub mod coordinator;
pub mod ledger;
pub mod model;
pub mod submitter;
pub mod trigger;
pub mod vault;
