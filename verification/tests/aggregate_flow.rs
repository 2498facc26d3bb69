//! Event application: lifecycle scenarios, idempotence, ordering, and the
//! reconciliation filter.

use order_core::aggregate::OrderAggregate;
use order_core::errors::ApplyError;
use order_core::events::{
    EventBody, EventHeader, LiquiditySide, OrderEvent, OrderSide, OrderType, TimeInForce,
};
use order_core::identifiers::{
    ClientOrderId, InstrumentId, StrategyId, TraderId, VenueOrderId, UUID4,
};
use order_core::reconciliation::{classify, Disposition};
use order_core::status::OrderStatus;

fn header(event_id: u128, ts_event: u64, ts_init: u64, reconciliation: bool) -> EventHeader {
    EventHeader {
        trader_id: TraderId::new("TRADER-001".to_string()).unwrap(),
        strategy_id: StrategyId::new("EMA-CROSS-01".to_string()).unwrap(),
        instrument_id: InstrumentId::new("BTCUSDT.COINBASE".to_string()).unwrap(),
        client_order_id: ClientOrderId::new("O-19700101-0000-000-001-1".to_string()).unwrap(),
        event_id: UUID4::new(event_id),
        ts_event,
        ts_init,
        reconciliation,
        venue_order_id: None,
        account_id: None,
    }
}

fn event(event_id: u128, ts: u64, body: EventBody) -> OrderEvent {
    OrderEvent::new(header(event_id, ts, ts, false), body).unwrap()
}

fn recon_event(event_id: u128, ts: u64, body: EventBody) -> OrderEvent {
    OrderEvent::new(header(event_id, ts, ts, true), body).unwrap()
}

fn init_event(quantity: u64) -> OrderEvent {
    event(
        1,
        0,
        EventBody::Initialized {
            order_side: OrderSide::Buy,
            order_type: OrderType::Limit,
            quantity,
            time_in_force: TimeInForce::Gtc,
            post_only: false,
            reduce_only: false,
        },
    )
}

fn fill(event_id: u128, ts: u64, qty: u64, px: u64) -> OrderEvent {
    event(
        event_id,
        ts,
        EventBody::Filled {
            last_qty: qty,
            last_px: px,
            liquidity_side: LiquiditySide::Taker,
            commission: 1,
        },
    )
}

fn accepted_order(quantity: u64) -> OrderAggregate {
    let mut agg = OrderAggregate::new(&init_event(quantity));
    agg.apply(&event(2, 1, EventBody::Submitted)).unwrap();
    agg.apply(&event(3, 2, EventBody::Accepted)).unwrap();
    agg
}

#[test]
fn test_initialized_aggregate() {
    let agg = OrderAggregate::new(&init_event(10));
    assert_eq!(agg.status(), OrderStatus::Initialized);
    assert_eq!(agg.total_qty(), 10);
    assert_eq!(agg.filled_qty(), 0);
    assert_eq!(agg.avg_px(), 0);
    assert_eq!(agg.history().len(), 1);
}

#[test]
fn test_fill_sequence_scenario() {
    let mut agg = accepted_order(10);
    let r = agg.apply(&fill(4, 3, 4, 100)).unwrap();
    assert_eq!(r.old_status, OrderStatus::Accepted);
    assert_eq!(r.new_status, OrderStatus::PartiallyFilled);
    assert!(!r.no_op);
    assert_eq!(agg.status(), OrderStatus::PartiallyFilled);
    assert_eq!(agg.filled_qty(), 4);
    let r = agg.apply(&fill(5, 4, 6, 200)).unwrap();
    assert_eq!(r.new_status, OrderStatus::Filled);
    assert_eq!(agg.status(), OrderStatus::Filled);
    assert_eq!(agg.filled_qty(), 10);
    let r = agg.apply(&fill(6, 5, 1, 100));
    assert_eq!(r.unwrap_err(), ApplyError::InvalidTransition);
    assert_eq!(agg.status(), OrderStatus::Filled);
    assert_eq!(agg.filled_qty(), 10);
}

#[test]
fn test_weighted_average_price() {
    let mut agg = accepted_order(10);
    agg.apply(&fill(4, 3, 4, 100)).unwrap();
    assert_eq!(agg.avg_px(), 100);
    agg.apply(&fill(5, 4, 6, 200)).unwrap();
    // (4 * 100 + 6 * 200) / 10
    assert_eq!(agg.avg_px(), 160);
}

#[test]
fn test_overfill_is_invalid() {
    let mut agg = accepted_order(10);
    agg.apply(&fill(4, 3, 7, 100)).unwrap();
    let r = agg.apply(&fill(5, 4, 7, 100));
    assert_eq!(r.unwrap_err(), ApplyError::InvalidTransition);
    assert_eq!(agg.filled_qty(), 7);
    assert_eq!(agg.status(), OrderStatus::PartiallyFilled);
}

#[test]
fn test_idempotent_replay() {
    let mut agg = accepted_order(10);
    let e = fill(4, 3, 4, 100);
    let first = agg.apply(&e).unwrap();
    assert!(!first.no_op);
    let second = agg.apply(&e).unwrap();
    assert!(second.no_op);
    assert_eq!(second.old_status, second.new_status);
    assert_eq!(agg.filled_qty(), 4);
    assert_eq!(agg.history().len(), 4);
}

#[test]
fn test_out_of_order_primary_event() {
    let mut agg = accepted_order(10);
    // watermark is now 2; a primary event with an older ts_init regresses
    let stale = event(9, 1, EventBody::Canceled);
    assert_eq!(agg.apply(&stale).unwrap_err(), ApplyError::OutOfOrder);
    assert_eq!(agg.status(), OrderStatus::Accepted);
}

#[test]
fn test_reconciliation_does_not_move_watermark() {
    let mut agg = accepted_order(10);
    assert_eq!(agg.ts_last_init(), 2);
    let r = agg.apply(&recon_event(9, 1, EventBody::Triggered)).unwrap();
    assert!(!r.no_op);
    assert_eq!(agg.status(), OrderStatus::Triggered);
    assert_eq!(agg.ts_last_init(), 2);
}

#[test]
fn test_invalid_transition_is_error() {
    let mut agg = OrderAggregate::new(&init_event(10));
    let r = agg.apply(&event(2, 1, EventBody::Accepted));
    assert_eq!(r.unwrap_err(), ApplyError::InvalidTransition);
    assert_eq!(agg.status(), OrderStatus::Initialized);
}

#[test]
fn test_reconciliation_conflict() {
    let mut agg = accepted_order(10);
    agg.apply(&event(4, 3, EventBody::Canceled)).unwrap();
    assert_eq!(agg.status(), OrderStatus::Canceled);
    // a novel reconciliation event that still fails the table is a conflict
    let r = agg.apply(&recon_event(9, 4, EventBody::Accepted));
    assert_eq!(r.unwrap_err(), ApplyError::ReconciliationConflict);
    // a duplicate reconciliation event is a silent no-op
    let replay = recon_event(4, 3, EventBody::Canceled);
    let r = agg.apply(&replay).unwrap();
    assert!(r.no_op);
}

#[test]
fn test_terminal_immutability() {
    let mut agg = OrderAggregate::new(&init_event(10));
    agg.apply(&event(2, 1, EventBody::Submitted)).unwrap();
    agg.apply(&event(3, 2, EventBody::Rejected {
        reason: "INSUFFICIENT_MARGIN".to_string(),
    }))
    .unwrap();
    assert_eq!(agg.status(), OrderStatus::Rejected);
    assert_eq!(agg.last_reason().as_ref().unwrap(), "INSUFFICIENT_MARGIN");
    for body in [
        EventBody::Submitted,
        EventBody::Accepted,
        EventBody::Canceled,
        EventBody::Triggered,
    ] {
        let before_filled = agg.filled_qty();
        assert!(agg.apply(&event(100, 4, body)).is_err());
        assert_eq!(agg.status(), OrderStatus::Rejected);
        assert_eq!(agg.filled_qty(), before_filled);
    }
}

#[test]
fn test_modify_rejected_keeps_status() {
    let mut agg = OrderAggregate::new(&init_event(10));
    agg.apply(&event(2, 1, EventBody::Submitted)).unwrap();
    assert_eq!(agg.status(), OrderStatus::Submitted);
    let r = agg
        .apply(&event(3, 2, EventBody::ModifyRejected {
            reason: "ORDER_DOES_NOT_EXIST".to_string(),
        }))
        .unwrap();
    assert_eq!(r.old_status, OrderStatus::Submitted);
    assert_eq!(r.new_status, OrderStatus::Submitted);
    assert_eq!(agg.status(), OrderStatus::Submitted);
    assert_eq!(agg.last_reason().as_ref().unwrap(), "ORDER_DOES_NOT_EXIST");
}

#[test]
fn test_accepted_records_venue_order_id() {
    let mut agg = OrderAggregate::new(&init_event(10));
    agg.apply(&event(2, 1, EventBody::Submitted)).unwrap();
    let mut h = header(3, 2, 2, false);
    h.venue_order_id = Some(VenueOrderId::new("001".to_string()).unwrap());
    let accepted = OrderEvent::new(h, EventBody::Accepted).unwrap();
    agg.apply(&accepted).unwrap();
    assert_eq!(agg.venue_order_id().as_ref().unwrap().as_str(), "001");
}

#[test]
fn test_update_quantity() {
    let mut agg = accepted_order(10);
    agg.apply(&event(4, 3, EventBody::PendingUpdate)).unwrap();
    assert_eq!(agg.status(), OrderStatus::PendingUpdate);
    let r = agg
        .apply(&event(5, 4, EventBody::Updated {
            quantity: Some(15),
            price: Some(99),
            trigger_price: None,
        }))
        .unwrap();
    assert_eq!(r.new_status, OrderStatus::Accepted);
    assert_eq!(agg.total_qty(), 15);
}

#[test]
fn test_update_below_filled_is_invalid() {
    let mut agg = accepted_order(10);
    agg.apply(&fill(4, 3, 6, 100)).unwrap();
    let r = agg.apply(&event(5, 4, EventBody::Updated {
        quantity: Some(6),
        price: None,
        trigger_price: None,
    }));
    assert_eq!(r.unwrap_err(), ApplyError::InvalidTransition);
    assert_eq!(agg.total_qty(), 10);
}

#[test]
fn test_denied_from_initialized() {
    let mut agg = OrderAggregate::new(&init_event(10));
    let r = agg
        .apply(&event(2, 1, EventBody::Denied {
            reason: "EXCEEDS_MAX_NOTIONAL".to_string(),
        }))
        .unwrap();
    assert_eq!(r.new_status, OrderStatus::Denied);
    assert_eq!(agg.last_reason().as_ref().unwrap(), "EXCEEDS_MAX_NOTIONAL");
}

#[test]
fn test_classify_duplicate() {
    let mut agg = accepted_order(10);
    let e = fill(4, 3, 4, 100);
    agg.apply(&e).unwrap();
    assert_eq!(classify(&agg, &e), Disposition::Duplicate);
}

#[test]
fn test_classify_stale() {
    let mut agg = accepted_order(10);
    agg.apply(&fill(4, 5, 4, 100)).unwrap();
    // venue time 5 is on record; an older reconciliation fill is stale
    let old_fill = recon_event(
        9,
        3,
        EventBody::Filled {
            last_qty: 2,
            last_px: 100,
            liquidity_side: LiquiditySide::Maker,
            commission: 1,
        },
    );
    assert_eq!(classify(&agg, &old_fill), Disposition::Stale);
}

#[test]
fn test_classify_apply() {
    let agg = accepted_order(10);
    let fresh = recon_event(9, 7, EventBody::Canceled);
    assert_eq!(classify(&agg, &fresh), Disposition::Apply);
}

#[test]
fn test_expiry_and_cancel_paths() {
    let mut agg = accepted_order(5);
    agg.apply(&event(4, 3, EventBody::PendingCancel)).unwrap();
    assert_eq!(agg.status(), OrderStatus::PendingCancel);
    let r = agg
        .apply(&event(5, 4, EventBody::CancelRejected {
            reason: "TOO_LATE_TO_CANCEL".to_string(),
        }))
        .unwrap();
    assert_eq!(r.new_status, OrderStatus::PendingCancel);
    agg.apply(&event(6, 5, EventBody::Canceled)).unwrap();
    assert_eq!(agg.status(), OrderStatus::Canceled);

    let mut agg2 = accepted_order(5);
    agg2.apply(&event(4, 3, EventBody::Expired {
        expire_time: Some(1_000),
    }))
    .unwrap();
    assert_eq!(agg2.status(), OrderStatus::Expired);
}
