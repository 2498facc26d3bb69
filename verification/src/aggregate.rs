//! The order aggregate: the authoritative mutable entity for one order.
//!
//! An aggregate is created from an `Initialized` event and mutated
//! exclusively through [`OrderAggregate::apply`]. The full behaviour of
//! `apply` is the mathematical function [`spec_apply`] over the aggregate's
//! view; every invariant of the aggregate is collected in [`inv`], which
//! `apply` preserves.
//!
//! The order of checks inside one application is: duplicate event identifier
//! (an idempotent no-op for any event, independent of the transition table);
//! then the primary-event timestamp watermark; then the transition-table
//! lookup and the payload resolution. The event identifier is recorded only
//! on success, so a failed application can be retried.
//!
//! The aggregate is synchronous and holds no lock: the platform must route
//! all events for one client order through a single logical writer. Events
//! themselves are immutable and freely shareable.

use vstd::prelude::*;

use vstd::arithmetic::div_mod::{lemma_div_by_multiple, lemma_div_is_ordered};
use vstd::arithmetic::mul::{lemma_mul_inequality, lemma_mul_is_distributive_add};

use crate::errors::ApplyError;
use crate::events::{EventBody, EventBodyView, OrderEvent, OrderEventView};
use crate::identifiers::{ClientOrderId, VenueOrderId};
use crate::status::{spec_is_terminal, OrderStatus};
use crate::transitions::{spec_transition, transition, TransitionTarget};

verus! {

/// The successful outcome of one application: the status before and after,
/// and whether the event was a recognised duplicate and therefore a no-op.
#[derive(Clone, Copy, Debug, PartialEq, Eq, Structural)]
pub struct StatusChanged {
    pub old_status: OrderStatus,
    pub new_status: OrderStatus,
    pub no_op: bool,
}

/// The mathematical image of an aggregate.
#[verifier::ext_equal]
pub ghost struct AggregateView {
    pub client_order_id: Seq<char>,
    pub venue_order_id: Option<Seq<char>>,
    pub status: OrderStatus,
    pub total_qty: u64,
    pub filled_qty: u64,
    pub px_qty_sum: u128,
    pub avg_px: u64,
    pub last_reason: Option<Seq<char>>,
    pub history: Seq<u128>,
    pub ts_last_event: u64,
    pub ts_last_init: u64,
}

/// The aggregate's invariant, established at construction and preserved by
/// every application:
/// - cumulative filled quantity never exceeds the order quantity, and is
///   strictly below it while the order is live;
/// - a `Filled` order is filled exactly to its quantity, a `PartiallyFilled`
///   order has a positive fill;
/// - the price-times-quantity accumulator is bounded, so fill arithmetic
///   cannot overflow, and the average price is its quotient by the filled
///   quantity;
/// - no event identifier appears twice in the history.
pub open spec fn inv(a: AggregateView) -> bool {
    &&& a.total_qty >= 1
    &&& a.filled_qty <= a.total_qty
    &&& (!spec_is_terminal(a.status) ==> a.filled_qty < a.total_qty)
    &&& (a.status == OrderStatus::Filled ==> a.filled_qty == a.total_qty)
    &&& (a.status == OrderStatus::PartiallyFilled ==> a.filled_qty >= 1)
    &&& a.px_qty_sum <= (a.filled_qty as u128) * (u64::MAX as u128)
    &&& a.avg_px as u128 == (if a.filled_qty == 0 {
        0u128
    } else {
        a.px_qty_sum / (a.filled_qty as u128)
    })
    &&& a.history.no_duplicates()
}

/// The fill update: cumulative filled quantity grows by the fill's quantity,
/// the weighted average price is recomputed, and the status resolves to
/// `PartiallyFilled` or `Filled` by whether the order is now fully filled.
pub open spec fn spec_fill_update(a: AggregateView, last_qty: u64, last_px: u64) -> AggregateView {
    let new_filled = (a.filled_qty + last_qty) as u64;
    let new_sum = (a.px_qty_sum + (last_qty as u128) * (last_px as u128)) as u128;
    let new_avg = (new_sum / (new_filled as u128)) as u64;
    AggregateView {
        status: if new_filled < a.total_qty {
            OrderStatus::PartiallyFilled
        } else {
            OrderStatus::Filled
        },
        filled_qty: new_filled,
        px_qty_sum: new_sum,
        avg_px: new_avg,
        ..a
    }
}

/// The second lookup stage: given the table's target for (status, kind),
/// the payload-derived resolution of the final state. `None` means the entry
/// is unresolvable for this payload and counts as absent from the table:
/// a fill of zero quantity or one that would overfill the order, or a
/// modification at or below the quantity already filled.
pub open spec fn spec_resolve(
    a: AggregateView,
    e: OrderEventView,
    t: TransitionTarget,
) -> Option<AggregateView> {
    match t {
        TransitionTarget::Fixed(target) => match e.body {
            EventBodyView::Denied { reason } => Some(
                AggregateView { status: target, last_reason: Some(reason), ..a },
            ),
            EventBodyView::Rejected { reason } => Some(
                AggregateView { status: target, last_reason: Some(reason), ..a },
            ),
            EventBodyView::ModifyRejected { reason } => Some(
                AggregateView { status: target, last_reason: Some(reason), ..a },
            ),
            EventBodyView::CancelRejected { reason } => Some(
                AggregateView { status: target, last_reason: Some(reason), ..a },
            ),
            EventBodyView::Accepted => Some(
                AggregateView {
                    status: target,
                    venue_order_id: if e.venue_order_id is Some {
                        e.venue_order_id
                    } else {
                        a.venue_order_id
                    },
                    ..a
                },
            ),
            EventBodyView::Updated { quantity, .. } => match quantity {
                Some(q) => if a.filled_qty < q {
                    Some(AggregateView { status: target, total_qty: q, ..a })
                } else {
                    None
                },
                None => Some(AggregateView { status: target, ..a }),
            },
            EventBodyView::Filled { .. } => None,
            _ => Some(AggregateView { status: target, ..a }),
        },
        TransitionTarget::FillResolved => match e.body {
            EventBodyView::Filled { last_qty, last_px, .. } => if 1 <= last_qty
                && a.filled_qty + last_qty <= a.total_qty {
                Some(spec_fill_update(a, last_qty, last_px))
            } else {
                None
            },
            _ => None,
        },
        TransitionTarget::ActiveResolved => match e.body {
            EventBodyView::Updated { quantity, .. } => {
                let working = if a.filled_qty == 0 {
                    OrderStatus::Accepted
                } else {
                    OrderStatus::PartiallyFilled
                };
                match quantity {
                    Some(q) => if a.filled_qty < q {
                        Some(AggregateView { status: working, total_qty: q, ..a })
                    } else {
                        None
                    },
                    None => Some(AggregateView { status: working, ..a }),
                }
            },
            _ => None,
        },
    }
}

/// The whole behaviour of one application, as a function from the aggregate's
/// view and the event's view to the new view and the reported outcome.
pub open spec fn spec_apply(a: AggregateView, e: OrderEventView) -> (AggregateView, Result<
    StatusChanged,
    ApplyError,
>) {
    if a.history.contains(e.event_id) {
        (a, Ok(StatusChanged { old_status: a.status, new_status: a.status, no_op: true }))
    } else if !e.reconciliation && e.ts_init < a.ts_last_init {
        (a, Err(ApplyError::OutOfOrder))
    } else {
        let failure = if e.reconciliation {
            ApplyError::ReconciliationConflict
        } else {
            ApplyError::InvalidTransition
        };
        match spec_transition(a.status, e.kind()) {
            Some(t) => match spec_resolve(a, e, t) {
                Some(m) => (
                    AggregateView {
                        history: m.history.push(e.event_id),
                        ts_last_event: e.ts_event,
                        ts_last_init: if e.reconciliation {
                            m.ts_last_init
                        } else {
                            e.ts_init
                        },
                        ..m
                    },
                    Ok(
                        StatusChanged {
                            old_status: a.status,
                            new_status: m.status,
                            no_op: false,
                        },
                    ),
                ),
                None => (a, Err(failure)),
            },
            None => (a, Err(failure)),
        }
    }
}

/// The aggregate a freshly constructed client order starts from: status
/// `Initialized`, nothing filled, the initialized event already on record.
pub open spec fn spec_init(e: OrderEventView) -> AggregateView {
    AggregateView {
        client_order_id: e.client_order_id,
        venue_order_id: e.venue_order_id,
        status: OrderStatus::Initialized,
        total_qty: match e.body {
            EventBodyView::Initialized { quantity, .. } => quantity,
            _ => arbitrary(),
        },
        filled_qty: 0,
        px_qty_sum: 0,
        avg_px: 0,
        last_reason: None,
        history: seq![e.event_id],
        ts_last_event: e.ts_event,
        ts_last_init: e.ts_init,
    }
}

/// Fill arithmetic stays in range: the accumulator update cannot overflow a
/// `u128`, and the recomputed average price fits a `u64`.
proof fn lemma_fill_bounds(a: AggregateView, last_qty: u64, last_px: u64)
    requires
        inv(a),
        1 <= last_qty,
        a.filled_qty + last_qty <= a.total_qty,
    ensures
        a.px_qty_sum + (last_qty as int) * (last_px as int) <= u128::MAX,
        a.px_qty_sum + (last_qty as int) * (last_px as int) <= (a.filled_qty + last_qty) * (
        u64::MAX as int),
        (a.px_qty_sum + (last_qty as int) * (last_px as int)) / (a.filled_qty as int
            + last_qty as int) <= u64::MAX,
{
    let m = u64::MAX as int;
    let s = a.px_qty_sum as int;
    let f = a.filled_qty as int;
    let q = last_qty as int;
    let p = last_px as int;
    let t = a.total_qty as int;
    lemma_mul_inequality(p, m, q);
    assert(q * p <= q * m);
    lemma_mul_is_distributive_add(m, f, q);
    assert(f * m + q * m == (f + q) * m);
    assert(s + q * p <= (f + q) * m);
    lemma_mul_inequality(f + q, t, m);
    lemma_mul_inequality(t, m, m);
    assert(s + q * p <= m * m);
    assert(m * m <= u128::MAX);
    lemma_div_is_ordered(s + q * p, (f + q) * m, f + q);
    lemma_div_by_multiple(m, f + q);
    assert(((f + q) * m) / (f + q) == m);
}

/// `spec_apply` preserves the aggregate invariant.
pub proof fn lemma_apply_preserves_inv(a: AggregateView, e: OrderEventView)
    requires
        inv(a),
    ensures
        inv(spec_apply(a, e).0),
{
    if !a.history.contains(e.event_id) && (e.reconciliation || e.ts_init >= a.ts_last_init) {
        match spec_transition(a.status, e.kind()) {
            Some(t) => {
                match spec_resolve(a, e, t) {
                    Some(m) => {
                        if t is FillResolved {
                            match e.body {
                                EventBodyView::Filled { last_qty, last_px, .. } => {
                                    lemma_fill_bounds(a, last_qty, last_px);
                                },
                                _ => {},
                            }
                        }
                        assert(!m.history.contains(e.event_id));
                        assert(m.history.push(e.event_id).no_duplicates());
                    },
                    None => {},
                }
            },
            None => {},
        }
    }
}

/// The authoritative state of one order: identity, current status, and
/// accumulated fill state, mutated exclusively through [`Self::apply`].
#[derive(Debug)]
pub struct OrderAggregate {
    client_order_id: ClientOrderId,
    venue_order_id: Option<VenueOrderId>,
    status: OrderStatus,
    total_qty: u64,
    filled_qty: u64,
    px_qty_sum: u128,
    avg_px: u64,
    last_reason: Option<String>,
    history: Vec<u128>,
    ts_last_event: u64,
    ts_last_init: u64,
}

impl View for OrderAggregate {
    type V = AggregateView;

    closed spec fn view(&self) -> AggregateView {
        AggregateView {
            client_order_id: self.client_order_id@,
            venue_order_id: match self.venue_order_id {
                Some(v) => Some(v@),
                None => None,
            },
            status: self.status,
            total_qty: self.total_qty,
            filled_qty: self.filled_qty,
            px_qty_sum: self.px_qty_sum,
            avg_px: self.avg_px,
            last_reason: match self.last_reason {
                Some(r) => Some(r@),
                None => None,
            },
            history: self.history@,
            ts_last_event: self.ts_last_event,
            ts_last_init: self.ts_last_init,
        }
    }
}

/// True when `id` occurs in `v`.
fn contains_id(v: &Vec<u128>, id: u128) -> (r: bool)
    ensures
        r == v@.contains(id),
{
    let mut i: usize = 0;
    while i < v.len()
        invariant
            i <= v.len(),
            forall|j: int| 0 <= j < i ==> v@[j] != id,
        decreases v.len() - i,
    {
        if v[i] == id {
            assert(v@[i as int] == id);
            return true;
        }
        i = i + 1;
    }
    false
}

impl OrderAggregate {
    /// Creates the aggregate for a freshly constructed client order, from its
    /// `Initialized` event. The order quantity must be positive, which
    /// [`OrderEvent::new`] has already checked for a validated event.
    pub fn new(init: &OrderEvent) -> (r: OrderAggregate)
        requires
            init@.body matches EventBodyView::Initialized { quantity, .. } && quantity >= 1,
        ensures
            r@ == spec_init(init@),
            inv(r@),
    {
        let total_qty = match &init.body {
            EventBody::Initialized { quantity, .. } => *quantity,
            _ => 1,
        };
        let mut history: Vec<u128> = Vec::new();
        history.push(init.header.event_id.value);
        let r = OrderAggregate {
            client_order_id: init.header.client_order_id.clone_id(),
            venue_order_id: match &init.header.venue_order_id {
                Some(v) => Some(v.clone_id()),
                None => None,
            },
            status: OrderStatus::Initialized,
            total_qty,
            filled_qty: 0,
            px_qty_sum: 0,
            avg_px: 0,
            last_reason: None,
            history,
            ts_last_event: init.header.ts_event,
            ts_last_init: init.header.ts_init,
        };
        proof {
            assert(r@ =~= spec_init(init@));
        }
        r
    }

    /// Applies one payload-resolved update, `t` being the table's target for
    /// (current status, event kind). Returns false, leaving the aggregate
    /// unchanged, when the payload makes the entry unresolvable.
    fn resolve_and_update(&mut self, e: &OrderEvent, t: TransitionTarget) -> (ok: bool)
        requires
            inv(old(self)@),
        ensures
            match spec_resolve(old(self)@, e@, t) {
                Some(m) => ok && final(self)@ == m,
                None => !ok && final(self)@ == old(self)@,
            },
    {
        match t {
            TransitionTarget::Fixed(target) => match &e.body {
                EventBody::Denied { reason } => {
                    self.status = target;
                    self.last_reason = Some(reason.clone());
                    true
                },
                EventBody::Rejected { reason } => {
                    self.status = target;
                    self.last_reason = Some(reason.clone());
                    true
                },
                EventBody::ModifyRejected { reason } => {
                    self.status = target;
                    self.last_reason = Some(reason.clone());
                    true
                },
                EventBody::CancelRejected { reason } => {
                    self.status = target;
                    self.last_reason = Some(reason.clone());
                    true
                },
                EventBody::Accepted => {
                    self.status = target;
                    if let Some(v) = &e.header.venue_order_id {
                        self.venue_order_id = Some(v.clone_id());
                    }
                    true
                },
                EventBody::Updated { quantity, .. } => match quantity {
                    Some(q) => {
                        if self.filled_qty < *q {
                            self.status = target;
                            self.total_qty = *q;
                            true
                        } else {
                            false
                        }
                    },
                    None => {
                        self.status = target;
                        true
                    },
                },
                EventBody::Filled { .. } => false,
                _ => {
                    self.status = target;
                    true
                },
            },
            TransitionTarget::FillResolved => match &e.body {
                EventBody::Filled { last_qty, last_px, .. } => {
                    if *last_qty >= 1 && *last_qty <= self.total_qty - self.filled_qty {
                        proof {
                            lemma_fill_bounds(self@, *last_qty, *last_px);
                        }
                        let new_filled = self.filled_qty + *last_qty;
                        let new_sum = self.px_qty_sum + (*last_qty as u128) * (*last_px as u128);
                        self.status = if new_filled < self.total_qty {
                            OrderStatus::PartiallyFilled
                        } else {
                            OrderStatus::Filled
                        };
                        self.filled_qty = new_filled;
                        self.px_qty_sum = new_sum;
                        self.avg_px = (new_sum / (new_filled as u128)) as u64;
                        true
                    } else {
                        false
                    }
                },
                _ => false,
            },
            TransitionTarget::ActiveResolved => match &e.body {
                EventBody::Updated { quantity, .. } => {
                    let working = if self.filled_qty == 0 {
                        OrderStatus::Accepted
                    } else {
                        OrderStatus::PartiallyFilled
                    };
                    match quantity {
                        Some(q) => {
                            if self.filled_qty < *q {
                                self.status = working;
                                self.total_qty = *q;
                                true
                            } else {
                                false
                            }
                        },
                        None => {
                            self.status = working;
                            true
                        },
                    }
                },
                _ => false,
            },
        }
    }

    /// The sole legal mutator: applies one event whose client-order
    /// identifier matches this aggregate's identity. The new state and the
    /// outcome are exactly [`spec_apply`] of the old state and the event.
    pub fn apply(&mut self, e: &OrderEvent) -> (r: Result<StatusChanged, ApplyError>)
        requires
            inv(old(self)@),
            e@.client_order_id == old(self)@.client_order_id,
        ensures
            final(self)@ == spec_apply(old(self)@, e@).0,
            r == spec_apply(old(self)@, e@).1,
            inv(final(self)@),
    {
        proof {
            lemma_apply_preserves_inv(old(self)@, e@);
        }
        if contains_id(&self.history, e.header.event_id.value) {
            return Ok(
                StatusChanged { old_status: self.status, new_status: self.status, no_op: true },
            );
        }
        if !e.header.reconciliation && e.header.ts_init < self.ts_last_init {
            return Err(ApplyError::OutOfOrder);
        }
        let failure = if e.header.reconciliation {
            ApplyError::ReconciliationConflict
        } else {
            ApplyError::InvalidTransition
        };
        let old_status = self.status;
        match transition(self.status, e.kind()) {
            Some(t) => {
                if self.resolve_and_update(e, t) {
                    let new_status = self.status;
                    self.history.push(e.header.event_id.value);
                    self.ts_last_event = e.header.ts_event;
                    if !e.header.reconciliation {
                        self.ts_last_init = e.header.ts_init;
                    }
                    proof {
                        assert(self@ =~= spec_apply(old(self)@, e@).0);
                    }
                    Ok(StatusChanged { old_status, new_status, no_op: false })
                } else {
                    Err(failure)
                }
            },
            None => Err(failure),
        }
    }

    /// The client-order identifier: the aggregate's identity.
    pub fn client_order_id(&self) -> (r: &ClientOrderId)
        ensures
            r@ == self@.client_order_id,
    {
        &self.client_order_id
    }

    /// The venue-assigned identifier, once an acceptance has carried one.
    pub fn venue_order_id(&self) -> (r: &Option<VenueOrderId>)
        ensures
            match r {
                Some(v) => self@.venue_order_id == Some(v@),
                None => self@.venue_order_id is None,
            },
    {
        &self.venue_order_id
    }

    /// The current status.
    pub fn status(&self) -> (r: OrderStatus)
        ensures
            r == self@.status,
    {
        self.status
    }

    /// The order's total quantity.
    pub fn total_qty(&self) -> (r: u64)
        ensures
            r == self@.total_qty,
    {
        self.total_qty
    }

    /// Cumulative filled quantity.
    pub fn filled_qty(&self) -> (r: u64)
        ensures
            r == self@.filled_qty,
    {
        self.filled_qty
    }

    /// Weighted average fill price: the price-times-quantity accumulator
    /// divided by the filled quantity, zero while nothing has filled.
    pub fn avg_px(&self) -> (r: u64)
        ensures
            r == self@.avg_px,
    {
        self.avg_px
    }

    /// The denial or rejection reason most recently recorded.
    pub fn last_reason(&self) -> (r: &Option<String>)
        ensures
            match r {
                Some(s) => self@.last_reason == Some(s@),
                None => self@.last_reason is None,
            },
    {
        &self.last_reason
    }

    /// The ordered history of applied event identifiers.
    pub fn history(&self) -> (r: &Vec<u128>)
        ensures
            r@ == self@.history,
    {
        &self.history
    }

    /// Venue time of the most recently applied event.
    pub fn ts_last_event(&self) -> (r: u64)
        ensures
            r == self@.ts_last_event,
    {
        self.ts_last_event
    }

    /// The primary-event `ts_init` watermark.
    pub fn ts_last_init(&self) -> (r: u64)
        ensures
            r == self@.ts_last_init,
    {
        self.ts_last_init
    }

    /// The aggregate invariant, for callers that state contracts over views.
    pub open spec fn wf(&self) -> bool {
        inv(self@)
    }
}

} // verus!
