//! The reconciliation filter: a guard in front of `apply` for events sourced
//! from an out-of-band reconciliation pass.
//!
//! Classification is a pure function of the candidate event and the current
//! aggregate snapshot — no retained state — so reconciliation is replayable
//! and testable in isolation.

use vstd::prelude::*;

use crate::aggregate::{AggregateView, OrderAggregate};
use crate::events::{OrderEvent, OrderEventView};

verus! {

/// What to do with a reconciliation-sourced candidate event.
#[derive(Clone, Copy, Debug, PartialEq, Eq, Structural)]
pub enum Disposition {
    /// The identifier is already recorded: drop the event.
    Duplicate,
    /// The event is older than venue time already applied: drop it, with a
    /// warning at the caller's discretion.
    Stale,
    /// Forward the event to `apply`.
    Apply,
}

/// The classification rule: a recorded identifier makes a `Duplicate`;
/// otherwise a `ts_event` older than the last applied event's makes it
/// `Stale`; everything else is forwarded.
pub open spec fn spec_classify(a: AggregateView, e: OrderEventView) -> Disposition {
    if a.history.contains(e.event_id) {
        Disposition::Duplicate
    } else if e.ts_event < a.ts_last_event {
        Disposition::Stale
    } else {
        Disposition::Apply
    }
}

/// Classifies one reconciliation-sourced candidate against the aggregate
/// snapshot.
pub fn classify(agg: &OrderAggregate, e: &OrderEvent) -> (d: Disposition)
    ensures
        d == spec_classify(agg@, e@),
{
    let history = agg.history();
    let id = e.id().value;
    let mut i: usize = 0;
    while i < history.len()
        invariant
            i <= history.len(),
            history@ == agg@.history,
            id == e@.event_id,
            forall|j: int| 0 <= j < i ==> agg@.history[j] != id,
        decreases history.len() - i,
    {
        if history[i] == id {
            assert(agg@.history[i as int] == id);
            return Disposition::Duplicate;
        }
        i = i + 1;
    }
    if e.ts_event() < agg.ts_last_event() {
        Disposition::Stale
    } else {
        Disposition::Apply
    }
}

} // verus!
