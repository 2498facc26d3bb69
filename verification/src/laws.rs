//! Laws of event application, proved over the aggregate model.
//!
//! Each law is stated over [`spec_apply`], the exact behaviour of
//! [`crate::aggregate::OrderAggregate::apply`], so it holds of every
//! execution of the aggregate.

use vstd::prelude::*;

use crate::aggregate::{
    inv, lemma_apply_preserves_inv, spec_apply, AggregateView, StatusChanged,
};
use crate::errors::ApplyError;
use crate::events::OrderEventView;
use crate::status::spec_is_terminal;

verus! {

/// Idempotence: applying an event whose identifier the aggregate has already
/// recorded leaves the aggregate unchanged and is reported as a no-op, never
/// as an error.
pub proof fn lemma_idempotent_replay(a: AggregateView, e: OrderEventView)
    requires
        a.history.contains(e.event_id),
    ensures
        spec_apply(a, e).0 == a,
        spec_apply(a, e).1 == Ok::<StatusChanged, ApplyError>(
            StatusChanged { old_status: a.status, new_status: a.status, no_op: true },
        ),
{
}

/// Idempotence across two applications: once an event has been applied with
/// any successful outcome, applying the same event again yields the same
/// resulting state and is reported as a no-op the second time.
pub proof fn lemma_idempotence(a: AggregateView, e: OrderEventView)
    requires
        spec_apply(a, e).1 is Ok,
    ensures
        spec_apply(spec_apply(a, e).0, e).0 == spec_apply(a, e).0,
        spec_apply(spec_apply(a, e).0, e).1 matches Ok(c) && c.no_op,
{
    let after = spec_apply(a, e).0;
    if !a.history.contains(e.event_id) {
        assert(after.history[after.history.len() - 1] == e.event_id);
    }
    assert(after.history.contains(e.event_id));
    lemma_idempotent_replay(after, e);
}

/// Quantity monotonicity, one step: no application decreases the cumulative
/// filled quantity, and it never exceeds the order quantity.
pub proof fn lemma_quantity_monotonic_step(a: AggregateView, e: OrderEventView)
    requires
        inv(a),
    ensures
        spec_apply(a, e).0.filled_qty >= a.filled_qty,
        spec_apply(a, e).0.filled_qty <= spec_apply(a, e).0.total_qty,
        inv(spec_apply(a, e).0),
{
    lemma_apply_preserves_inv(a, e);
}

/// The result of applying a sequence of events in order.
pub open spec fn spec_apply_all(a: AggregateView, es: Seq<OrderEventView>) -> AggregateView
    decreases es.len(),
{
    if es.len() == 0 {
        a
    } else {
        spec_apply_all(spec_apply(a, es[0]).0, es.drop_first())
    }
}

/// Quantity monotonicity: for any sequence of events — fills included, in
/// any order, with any outcomes — the cumulative filled quantity never
/// decreases and never exceeds the order quantity.
pub proof fn lemma_quantity_monotonic(a: AggregateView, es: Seq<OrderEventView>)
    requires
        inv(a),
    ensures
        inv(spec_apply_all(a, es)),
        spec_apply_all(a, es).filled_qty >= a.filled_qty,
        spec_apply_all(a, es).filled_qty <= spec_apply_all(a, es).total_qty,
    decreases es.len(),
{
    if es.len() > 0 {
        lemma_quantity_monotonic_step(a, es[0]);
        lemma_quantity_monotonic(spec_apply(a, es[0]).0, es.drop_first());
    }
}

/// Timestamp monotonicity, one step: the primary-event `ts_init` watermark
/// never moves backward, and a reconciliation-flagged event does not move it
/// at all.
pub proof fn lemma_watermark_monotonic_step(a: AggregateView, e: OrderEventView)
    ensures
        spec_apply(a, e).0.ts_last_init >= a.ts_last_init,
        e.reconciliation ==> spec_apply(a, e).0.ts_last_init == a.ts_last_init,
{
}

/// Timestamp monotonicity: over any sequence of events the watermark never
/// decreases.
pub proof fn lemma_watermark_monotonic(a: AggregateView, es: Seq<OrderEventView>)
    ensures
        spec_apply_all(a, es).ts_last_init >= a.ts_last_init,
    decreases es.len(),
{
    if es.len() > 0 {
        lemma_watermark_monotonic_step(a, es[0]);
        lemma_watermark_monotonic(spec_apply(a, es[0]).0, es.drop_first());
    }
}

/// Terminal immutability: once the status is terminal, no event — primary or
/// reconciliation-flagged — changes the status or the filled quantity. A
/// duplicate replay is a no-op, everything else is an error.
pub proof fn lemma_terminal_immutable(a: AggregateView, e: OrderEventView)
    requires
        spec_is_terminal(a.status),
    ensures
        spec_apply(a, e).0.status == a.status,
        spec_apply(a, e).0.filled_qty == a.filled_qty,
        spec_apply(a, e).0 == a,
{
}

} // verus!
