//! The order-lifecycle event model.
//!
//! Every notification the platform can receive about an order is one value of
//! [`OrderEvent`]: a common header (identity, timing, reconciliation flag)
//! plus a variant-specific payload, [`EventBody`]. The set of variants is
//! closed; downstream components dispatch on [`EventKind`] and the header
//! without knowing the concrete variant.
//!
//! Events are immutable once constructed. [`OrderEvent::new`] checks only
//! locally-checkable constraints (non-empty required identifiers and reasons,
//! non-zero quantities) and never touches aggregate state.

use vstd::prelude::*;

use crate::errors::ValidationError;
use crate::identifiers::{
    AccountId, ClientOrderId, InstrumentId, StrategyId, TraderId, VenueOrderId, UUID4,
};

verus! {

/// The side of an order.
#[derive(Clone, Copy, Debug, PartialEq, Eq, Structural)]
pub enum OrderSide {
    Buy,
    Sell,
}

/// The execution type of an order.
#[derive(Clone, Copy, Debug, PartialEq, Eq, Structural)]
pub enum OrderType {
    Market,
    Limit,
    StopMarket,
    StopLimit,
}

/// How long an order remains in force.
#[derive(Clone, Copy, Debug, PartialEq, Eq, Structural)]
pub enum TimeInForce {
    Gtc,
    Ioc,
    Fok,
    Gtd,
    Day,
}

/// Whether a fill added or removed liquidity.
#[derive(Clone, Copy, Debug, PartialEq, Eq, Structural)]
pub enum LiquiditySide {
    Maker,
    Taker,
}

/// The canonical machine-stable tag of an event variant.
#[derive(Clone, Copy, Debug, PartialEq, Eq, Structural)]
pub enum EventKind {
    Initialized,
    Denied,
    Submitted,
    Accepted,
    Rejected,
    Canceled,
    Expired,
    Triggered,
    PendingUpdate,
    PendingCancel,
    ModifyRejected,
    CancelRejected,
    Updated,
    Filled,
}

/// Header fields present on every event variant.
///
/// Timestamps are 64-bit nanosecond counts since the epoch: `ts_event` is the
/// venue or simulation time of occurrence, `ts_init` the local processing
/// time. `reconciliation` is true when the event originates from an
/// out-of-band state-reconciliation pass rather than the primary event flow.
#[derive(Clone, Debug)]
pub struct EventHeader {
    pub trader_id: TraderId,
    pub strategy_id: StrategyId,
    pub instrument_id: InstrumentId,
    pub client_order_id: ClientOrderId,
    pub event_id: UUID4,
    pub ts_event: u64,
    pub ts_init: u64,
    pub reconciliation: bool,
    pub venue_order_id: Option<VenueOrderId>,
    pub account_id: Option<AccountId>,
}

/// The variant-specific payload of an event.
///
/// Prices, quantities and commissions are fixed-point raw values: unsigned
/// 64-bit integers in the instrument's smallest increment.
#[derive(Clone, Debug)]
pub enum EventBody {
    /// A client order was constructed locally.
    Initialized {
        order_side: OrderSide,
        order_type: OrderType,
        quantity: u64,
        time_in_force: TimeInForce,
        post_only: bool,
        reduce_only: bool,
    },
    /// The order was denied before submission, e.g. by a pre-trade check.
    Denied { reason: String },
    /// The order was sent to the venue.
    Submitted,
    /// The venue acknowledged the order.
    Accepted,
    /// The venue rejected the order.
    Rejected { reason: String },
    /// The order was canceled.
    Canceled,
    /// The order expired at the venue.
    Expired { expire_time: Option<u64> },
    /// A stop or trigger condition fired.
    Triggered,
    /// A modification was requested and awaits the venue.
    PendingUpdate,
    /// A cancelation was requested and awaits the venue.
    PendingCancel,
    /// The venue rejected a modification request.
    ModifyRejected { reason: String },
    /// The venue rejected a cancelation request.
    CancelRejected { reason: String },
    /// The venue applied a modification.
    Updated { quantity: Option<u64>, price: Option<u64>, trigger_price: Option<u64> },
    /// The order (partially) filled.
    Filled { last_qty: u64, last_px: u64, liquidity_side: LiquiditySide, commission: u64 },
}

/// The mathematical image of an [`EventBody`]: strings become character
/// sequences, all else is carried as is.
#[verifier::ext_equal]
pub ghost enum EventBodyView {
    Initialized {
        order_side: OrderSide,
        order_type: OrderType,
        quantity: u64,
        time_in_force: TimeInForce,
        post_only: bool,
        reduce_only: bool,
    },
    Denied { reason: Seq<char> },
    Submitted,
    Accepted,
    Rejected { reason: Seq<char> },
    Canceled,
    Expired { expire_time: Option<u64> },
    Triggered,
    PendingUpdate,
    PendingCancel,
    ModifyRejected { reason: Seq<char> },
    CancelRejected { reason: Seq<char> },
    Updated { quantity: Option<u64>, price: Option<u64>, trigger_price: Option<u64> },
    Filled { last_qty: u64, last_px: u64, liquidity_side: LiquiditySide, commission: u64 },
}

impl EventBodyView {
    /// The tag of the variant.
    pub open spec fn kind(self) -> EventKind {
        match self {
            EventBodyView::Initialized { .. } => EventKind::Initialized,
            EventBodyView::Denied { .. } => EventKind::Denied,
            EventBodyView::Submitted => EventKind::Submitted,
            EventBodyView::Accepted => EventKind::Accepted,
            EventBodyView::Rejected { .. } => EventKind::Rejected,
            EventBodyView::Canceled => EventKind::Canceled,
            EventBodyView::Expired { .. } => EventKind::Expired,
            EventBodyView::Triggered => EventKind::Triggered,
            EventBodyView::PendingUpdate => EventKind::PendingUpdate,
            EventBodyView::PendingCancel => EventKind::PendingCancel,
            EventBodyView::ModifyRejected { .. } => EventKind::ModifyRejected,
            EventBodyView::CancelRejected { .. } => EventKind::CancelRejected,
            EventBodyView::Updated { .. } => EventKind::Updated,
            EventBodyView::Filled { .. } => EventKind::Filled,
        }
    }
}

impl View for EventBody {
    type V = EventBodyView;

    open spec fn view(&self) -> EventBodyView {
        match self {
            EventBody::Initialized {
                order_side,
                order_type,
                quantity,
                time_in_force,
                post_only,
                reduce_only,
            } => EventBodyView::Initialized {
                order_side: *order_side,
                order_type: *order_type,
                quantity: *quantity,
                time_in_force: *time_in_force,
                post_only: *post_only,
                reduce_only: *reduce_only,
            },
            EventBody::Denied { reason } => EventBodyView::Denied { reason: reason@ },
            EventBody::Submitted => EventBodyView::Submitted,
            EventBody::Accepted => EventBodyView::Accepted,
            EventBody::Rejected { reason } => EventBodyView::Rejected { reason: reason@ },
            EventBody::Canceled => EventBodyView::Canceled,
            EventBody::Expired { expire_time } => EventBodyView::Expired {
                expire_time: *expire_time,
            },
            EventBody::Triggered => EventBodyView::Triggered,
            EventBody::PendingUpdate => EventBodyView::PendingUpdate,
            EventBody::PendingCancel => EventBodyView::PendingCancel,
            EventBody::ModifyRejected { reason } => EventBodyView::ModifyRejected {
                reason: reason@,
            },
            EventBody::CancelRejected { reason } => EventBodyView::CancelRejected {
                reason: reason@,
            },
            EventBody::Updated { quantity, price, trigger_price } => EventBodyView::Updated {
                quantity: *quantity,
                price: *price,
                trigger_price: *trigger_price,
            },
            EventBody::Filled { last_qty, last_px, liquidity_side, commission } => {
                EventBodyView::Filled {
                    last_qty: *last_qty,
                    last_px: *last_px,
                    liquidity_side: *liquidity_side,
                    commission: *commission,
                }
            },
        }
    }
}

/// The view of an optional identifier: the wrapped character sequence.
pub open spec fn opt_id_view<T: View<V = Seq<char>>>(o: Option<T>) -> Option<Seq<char>> {
    match o {
        Some(v) => Some(v@),
        None => None,
    }
}

/// The mathematical image of a whole event: flattened header plus body.
#[verifier::ext_equal]
pub ghost struct OrderEventView {
    pub trader_id: Seq<char>,
    pub strategy_id: Seq<char>,
    pub instrument_id: Seq<char>,
    pub client_order_id: Seq<char>,
    pub event_id: u128,
    pub ts_event: u64,
    pub ts_init: u64,
    pub reconciliation: bool,
    pub venue_order_id: Option<Seq<char>>,
    pub account_id: Option<Seq<char>>,
    pub body: EventBodyView,
}

impl OrderEventView {
    /// The tag of the variant.
    pub open spec fn kind(self) -> EventKind {
        self.body.kind()
    }
}

/// One order-lifecycle notification: common header plus variant payload.
#[derive(Clone, Debug)]
pub struct OrderEvent {
    pub header: EventHeader,
    pub body: EventBody,
}

impl View for OrderEvent {
    type V = OrderEventView;

    open spec fn view(&self) -> OrderEventView {
        OrderEventView {
            trader_id: self.header.trader_id@,
            strategy_id: self.header.strategy_id@,
            instrument_id: self.header.instrument_id@,
            client_order_id: self.header.client_order_id@,
            event_id: self.header.event_id.value,
            ts_event: self.header.ts_event,
            ts_init: self.header.ts_init,
            reconciliation: self.header.reconciliation,
            venue_order_id: opt_id_view(self.header.venue_order_id),
            account_id: opt_id_view(self.header.account_id),
            body: self.body@,
        }
    }
}

/// Locally-checkable validity of a header: the four required identifiers are
/// non-empty, and the optional identifiers are non-empty where present.
pub open spec fn header_is_valid(h: EventHeader) -> bool {
    &&& h.trader_id.is_valid()
    &&& h.strategy_id.is_valid()
    &&& h.instrument_id.is_valid()
    &&& h.client_order_id.is_valid()
    &&& (h.venue_order_id matches Some(v) ==> v.is_valid())
    &&& (h.account_id matches Some(a) ==> a.is_valid())
}

/// Locally-checkable validity of a payload: reasons are non-empty, explicit
/// quantities are non-zero.
pub open spec fn body_is_valid(b: EventBody) -> bool {
    match b {
        EventBody::Initialized { quantity, .. } => quantity >= 1,
        EventBody::Denied { reason } => reason@.len() > 0,
        EventBody::Rejected { reason } => reason@.len() > 0,
        EventBody::ModifyRejected { reason } => reason@.len() > 0,
        EventBody::CancelRejected { reason } => reason@.len() > 0,
        EventBody::Updated { quantity, .. } => (quantity matches Some(q) ==> q >= 1),
        EventBody::Filled { last_qty, .. } => last_qty >= 1,
        _ => true,
    }
}

/// The error [`OrderEvent::new`] reports, `None` when construction succeeds.
/// Header identifiers are checked before the payload.
pub open spec fn spec_validate(h: EventHeader, b: EventBody) -> Option<ValidationError> {
    if !header_is_valid(h) {
        Some(ValidationError::EmptyIdentifier)
    } else if !body_is_valid(b) {
        match b {
            EventBody::Denied { .. } => Some(ValidationError::EmptyReason),
            EventBody::Rejected { .. } => Some(ValidationError::EmptyReason),
            EventBody::ModifyRejected { .. } => Some(ValidationError::EmptyReason),
            EventBody::CancelRejected { .. } => Some(ValidationError::EmptyReason),
            _ => Some(ValidationError::ZeroQuantity),
        }
    } else {
        None
    }
}

impl OrderEvent {
    /// Structural validity of a constructed event.
    pub open spec fn is_valid(&self) -> bool {
        header_is_valid(self.header) && body_is_valid(self.body)
    }

    /// Constructs an event, validating only locally-checkable constraints.
    pub fn new(header: EventHeader, body: EventBody) -> (r: Result<OrderEvent, ValidationError>)
        ensures
            r is Ok <==> spec_validate(header, body) is None,
            r is Err ==> Some(r->Err_0) == spec_validate(header, body),
            r is Ok ==> r->Ok_0.header == header && r->Ok_0.body == body,
            r is Ok ==> r->Ok_0.is_valid(),
    {
        if header.trader_id.as_str().is_empty() || header.strategy_id.as_str().is_empty()
            || header.instrument_id.as_str().is_empty()
            || header.client_order_id.as_str().is_empty() {
            return Err(ValidationError::EmptyIdentifier);
        }
        if let Some(v) = &header.venue_order_id {
            if v.as_str().is_empty() {
                return Err(ValidationError::EmptyIdentifier);
            }
        }
        if let Some(a) = &header.account_id {
            if a.as_str().is_empty() {
                return Err(ValidationError::EmptyIdentifier);
            }
        }
        match &body {
            EventBody::Initialized { quantity, .. } => {
                if *quantity == 0 {
                    return Err(ValidationError::ZeroQuantity);
                }
            },
            EventBody::Denied { reason } => {
                if reason.as_str().is_empty() {
                    return Err(ValidationError::EmptyReason);
                }
            },
            EventBody::Rejected { reason } => {
                if reason.as_str().is_empty() {
                    return Err(ValidationError::EmptyReason);
                }
            },
            EventBody::ModifyRejected { reason } => {
                if reason.as_str().is_empty() {
                    return Err(ValidationError::EmptyReason);
                }
            },
            EventBody::CancelRejected { reason } => {
                if reason.as_str().is_empty() {
                    return Err(ValidationError::EmptyReason);
                }
            },
            EventBody::Updated { quantity, .. } => {
                if let Some(q) = quantity {
                    if *q == 0 {
                        return Err(ValidationError::ZeroQuantity);
                    }
                }
            },
            EventBody::Filled { last_qty, .. } => {
                if *last_qty == 0 {
                    return Err(ValidationError::ZeroQuantity);
                }
            },
            _ => {},
        }
        Ok(OrderEvent { header, body })
    }

    /// The globally unique event identifier.
    pub fn id(&self) -> (r: UUID4)
        ensures
            r.value == self@.event_id,
    {
        self.header.event_id
    }

    /// The machine-stable tag of the variant.
    pub fn kind(&self) -> (k: EventKind)
        ensures
            k == self@.kind(),
    {
        match &self.body {
            EventBody::Initialized { .. } => EventKind::Initialized,
            EventBody::Denied { .. } => EventKind::Denied,
            EventBody::Submitted => EventKind::Submitted,
            EventBody::Accepted => EventKind::Accepted,
            EventBody::Rejected { .. } => EventKind::Rejected,
            EventBody::Canceled => EventKind::Canceled,
            EventBody::Expired { .. } => EventKind::Expired,
            EventBody::Triggered => EventKind::Triggered,
            EventBody::PendingUpdate => EventKind::PendingUpdate,
            EventBody::PendingCancel => EventKind::PendingCancel,
            EventBody::ModifyRejected { .. } => EventKind::ModifyRejected,
            EventBody::CancelRejected { .. } => EventKind::CancelRejected,
            EventBody::Updated { .. } => EventKind::Updated,
            EventBody::Filled { .. } => EventKind::Filled,
        }
    }

    /// The trader that owns the order.
    pub fn trader_id(&self) -> (r: &TraderId)
        ensures
            r@ == self@.trader_id,
    {
        &self.header.trader_id
    }

    /// The strategy that issued the order.
    pub fn strategy_id(&self) -> (r: &StrategyId)
        ensures
            r@ == self@.strategy_id,
    {
        &self.header.strategy_id
    }

    /// The instrument the order trades.
    pub fn instrument_id(&self) -> (r: &InstrumentId)
        ensures
            r@ == self@.instrument_id,
    {
        &self.header.instrument_id
    }

    /// The client-order identifier the event belongs to.
    pub fn client_order_id(&self) -> (r: &ClientOrderId)
        ensures
            r@ == self@.client_order_id,
    {
        &self.header.client_order_id
    }

    /// The venue-assigned order identifier, where the event carries one.
    pub fn venue_order_id(&self) -> (r: &Option<VenueOrderId>)
        ensures
            opt_id_view(*r) == self@.venue_order_id,
    {
        &self.header.venue_order_id
    }

    /// The account the order executes against, where the event carries one.
    pub fn account_id(&self) -> (r: &Option<AccountId>)
        ensures
            opt_id_view(*r) == self@.account_id,
    {
        &self.header.account_id
    }

    /// Venue or simulation time of occurrence, nanoseconds since the epoch.
    pub fn ts_event(&self) -> (r: u64)
        ensures
            r == self@.ts_event,
    {
        self.header.ts_event
    }

    /// Local processing time, nanoseconds since the epoch.
    pub fn ts_init(&self) -> (r: u64)
        ensures
            r == self@.ts_init,
    {
        self.header.ts_init
    }

    /// True when the event came from a reconciliation pass. The stored flag
    /// is authoritative for every variant.
    pub fn reconciliation(&self) -> (r: bool)
        ensures
            r == self@.reconciliation,
    {
        self.header.reconciliation
    }

    /// The reason string of a denial or rejection variant, absent elsewhere.
    pub fn reason(&self) -> (r: Option<&String>)
        ensures
            match r {
                Some(s) => match self@.body {
                    EventBodyView::Denied { reason } => s@ == reason,
                    EventBodyView::Rejected { reason } => s@ == reason,
                    EventBodyView::ModifyRejected { reason } => s@ == reason,
                    EventBodyView::CancelRejected { reason } => s@ == reason,
                    _ => false,
                },
                None => !(self@.body matches EventBodyView::Denied { .. })
                    && !(self@.body matches EventBodyView::Rejected { .. })
                    && !(self@.body matches EventBodyView::ModifyRejected { .. })
                    && !(self@.body matches EventBodyView::CancelRejected { .. }),
            },
    {
        match &self.body {
            EventBody::Denied { reason } => Some(reason),
            EventBody::Rejected { reason } => Some(reason),
            EventBody::ModifyRejected { reason } => Some(reason),
            EventBody::CancelRejected { reason } => Some(reason),
            _ => None,
        }
    }
}

} // verus!
