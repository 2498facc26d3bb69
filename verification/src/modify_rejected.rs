//! The modify-rejected event variant, with its canonical log rendering.
//!
//! This variant also exists standalone, fields flat, because collaborators
//! construct and log it directly; [`OrderModifyRejected::to_event`] turns it
//! into the polymorphic [`OrderEvent`] the aggregate applies. The single-line
//! rendering of [`OrderModifyRejected::to_display_string`] is stable and
//! parseable: changing its field order or labels is a breaking change for
//! log-based tooling.

use vstd::prelude::*;

use vstd::string::StringExecFns;

use crate::errors::ValidationError;
use crate::events::{EventBody, EventHeader, OrderEvent};
use crate::identifiers::{
    AccountId, ClientOrderId, InstrumentId, StrategyId, TraderId, VenueOrderId, UUID4,
};
use crate::text::{dec_str, spec_dec};

verus! {

/// The venue rejected a modification request for an order.
#[derive(Clone, Debug)]
pub struct OrderModifyRejected {
    pub trader_id: TraderId,
    pub strategy_id: StrategyId,
    pub instrument_id: InstrumentId,
    pub client_order_id: ClientOrderId,
    pub reason: String,
    pub event_id: UUID4,
    pub ts_event: u64,
    pub ts_init: u64,
    pub reconciliation: bool,
    pub venue_order_id: Option<VenueOrderId>,
    pub account_id: Option<AccountId>,
}

/// The rendering of an optional identifier: the identifier itself, or the
/// word `None`.
pub open spec fn spec_opt_id(o: Option<Seq<char>>) -> Seq<char> {
    match o {
        Some(s) => s,
        None => "None"@,
    }
}

impl OrderModifyRejected {
    /// Structural validity: required identifiers and the reason non-empty,
    /// optional identifiers non-empty where present.
    pub open spec fn is_valid(&self) -> bool {
        &&& self.trader_id.is_valid()
        &&& self.strategy_id.is_valid()
        &&& self.instrument_id.is_valid()
        &&& self.client_order_id.is_valid()
        &&& self.reason@.len() > 0
        &&& (self.venue_order_id matches Some(v) ==> v.is_valid())
        &&& (self.account_id matches Some(a) ==> a.is_valid())
    }

    /// Constructs the event, validating only locally-checkable constraints:
    /// required identifiers first, then the reason.
    pub fn new(
        trader_id: TraderId,
        strategy_id: StrategyId,
        instrument_id: InstrumentId,
        client_order_id: ClientOrderId,
        reason: String,
        event_id: UUID4,
        ts_event: u64,
        ts_init: u64,
        reconciliation: bool,
        venue_order_id: Option<VenueOrderId>,
        account_id: Option<AccountId>,
    ) -> (r: Result<OrderModifyRejected, ValidationError>)
        ensures
            r is Ok <==> {
                &&& trader_id.is_valid()
                &&& strategy_id.is_valid()
                &&& instrument_id.is_valid()
                &&& client_order_id.is_valid()
                &&& reason@.len() > 0
                &&& (venue_order_id matches Some(v) ==> v.is_valid())
                &&& (account_id matches Some(a) ==> a.is_valid())
            },
            r is Ok ==> {
                &&& r->Ok_0.trader_id@ == trader_id@
                &&& r->Ok_0.strategy_id@ == strategy_id@
                &&& r->Ok_0.instrument_id@ == instrument_id@
                &&& r->Ok_0.client_order_id@ == client_order_id@
                &&& r->Ok_0.reason@ == reason@
                &&& r->Ok_0.event_id == event_id
                &&& r->Ok_0.ts_event == ts_event
                &&& r->Ok_0.ts_init == ts_init
                &&& r->Ok_0.reconciliation == reconciliation
                &&& r->Ok_0.venue_order_id == venue_order_id
                &&& r->Ok_0.account_id == account_id
                &&& r->Ok_0.is_valid()
            },
            r is Err ==> r->Err_0 == ValidationError::EmptyIdentifier || r->Err_0
                == ValidationError::EmptyReason,
    {
        if trader_id.as_str().is_empty() || strategy_id.as_str().is_empty()
            || instrument_id.as_str().is_empty() || client_order_id.as_str().is_empty() {
            return Err(ValidationError::EmptyIdentifier);
        }
        if let Some(v) = &venue_order_id {
            if v.as_str().is_empty() {
                return Err(ValidationError::EmptyIdentifier);
            }
        }
        if let Some(a) = &account_id {
            if a.as_str().is_empty() {
                return Err(ValidationError::EmptyIdentifier);
            }
        }
        if reason.as_str().is_empty() {
            return Err(ValidationError::EmptyReason);
        }
        Ok(
            OrderModifyRejected {
                trader_id,
                strategy_id,
                instrument_id,
                client_order_id,
                reason,
                event_id,
                ts_event,
                ts_init,
                reconciliation,
                venue_order_id,
                account_id,
            },
        )
    }

    /// The polymorphic form of this variant, applied by the aggregate.
    pub fn to_event(self) -> (r: OrderEvent)
        ensures
            r@.trader_id == self.trader_id@,
            r@.strategy_id == self.strategy_id@,
            r@.instrument_id == self.instrument_id@,
            r@.client_order_id == self.client_order_id@,
            r@.event_id == self.event_id.value,
            r@.ts_event == self.ts_event,
            r@.ts_init == self.ts_init,
            r@.reconciliation == self.reconciliation,
            r@.venue_order_id == crate::events::opt_id_view(self.venue_order_id),
            r@.account_id == crate::events::opt_id_view(self.account_id),
            r@.body == (crate::events::EventBodyView::ModifyRejected { reason: self.reason@ }),
    {
        OrderEvent {
            header: EventHeader {
                trader_id: self.trader_id,
                strategy_id: self.strategy_id,
                instrument_id: self.instrument_id,
                client_order_id: self.client_order_id,
                event_id: self.event_id,
                ts_event: self.ts_event,
                ts_init: self.ts_init,
                reconciliation: self.reconciliation,
                venue_order_id: self.venue_order_id,
                account_id: self.account_id,
            },
            body: EventBody::ModifyRejected { reason: self.reason },
        }
    }

    /// The canonical single-line rendering, as a character sequence.
    pub open spec fn spec_display(&self) -> Seq<char> {
        "OrderModifyRejected(instrument_id="@ + self.instrument_id@ + ", client_order_id="@
            + self.client_order_id@ + ", venue_order_id="@ + spec_opt_id(
            crate::events::opt_id_view(self.venue_order_id),
        ) + ", account_id="@ + spec_opt_id(crate::events::opt_id_view(self.account_id))
            + ", reason='"@ + self.reason@ + "', ts_event="@ + spec_dec(self.ts_event as nat)
            + ")"@
    }

    /// Renders the canonical single line for logs.
    pub fn to_display_string(&self) -> (s: String)
        ensures
            s@ == self.spec_display(),
    {
        let mut s = String::new();
        s.append("OrderModifyRejected(instrument_id=");
        s.append(self.instrument_id.as_str());
        s.append(", client_order_id=");
        s.append(self.client_order_id.as_str());
        s.append(", venue_order_id=");
        match &self.venue_order_id {
            Some(v) => s.append(v.as_str()),
            None => s.append("None"),
        }
        s.append(", account_id=");
        match &self.account_id {
            Some(a) => s.append(a.as_str()),
            None => s.append("None"),
        }
        s.append(", reason='");
        s.append(self.reason.as_str());
        s.append("', ts_event=");
        let rendered_ts = dec_str(self.ts_event);
        s.append(rendered_ts.as_str());
        s.append(")");
        proof {
            assert(s@ =~= self.spec_display());
        }
        s
    }
}

} // verus!
