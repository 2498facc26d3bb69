//! Event construction, validation, and the canonical log rendering.

use order_core::errors::ValidationError;
use order_core::events::{EventBody, EventHeader, EventKind, OrderEvent};
use order_core::identifiers::{
    AccountId, ClientOrderId, InstrumentId, StrategyId, TraderId, VenueOrderId, UUID4,
};
use order_core::modify_rejected::OrderModifyRejected;

fn header(event_id: u128, ts_event: u64, ts_init: u64, reconciliation: bool) -> EventHeader {
    EventHeader {
        trader_id: TraderId::new("TRADER-001".to_string()).unwrap(),
        strategy_id: StrategyId::new("EMA-CROSS-01".to_string()).unwrap(),
        instrument_id: InstrumentId::new("BTCUSDT.COINBASE".to_string()).unwrap(),
        client_order_id: ClientOrderId::new("O-19700101-0000-000-001-1".to_string()).unwrap(),
        event_id: UUID4::new(event_id),
        ts_event,
        ts_init,
        reconciliation,
        venue_order_id: None,
        account_id: None,
    }
}

fn modify_rejected_fixture() -> OrderModifyRejected {
    OrderModifyRejected::new(
        TraderId::new("TRADER-001".to_string()).unwrap(),
        StrategyId::new("EMA-CROSS-01".to_string()).unwrap(),
        InstrumentId::new("BTCUSDT.COINBASE".to_string()).unwrap(),
        ClientOrderId::new("O-19700101-0000-000-001-1".to_string()).unwrap(),
        "ORDER_DOES_NOT_EXIST".to_string(),
        UUID4::new(0x1234_5678_9abc_def0),
        0,
        0,
        false,
        Some(VenueOrderId::new("001".to_string()).unwrap()),
        Some(AccountId::new("SIM-001".to_string()).unwrap()),
    )
    .unwrap()
}

#[test]
fn test_order_modified_rejected() {
    let event = modify_rejected_fixture();
    let display = event.to_display_string();
    assert_eq!(
        display,
        "OrderModifyRejected(instrument_id=BTCUSDT.COINBASE, client_order_id=O-19700101-0000-000-001-1, \
        venue_order_id=001, account_id=SIM-001, reason='ORDER_DOES_NOT_EXIST', ts_event=0)"
    );
}

#[test]
fn test_modify_rejected_display_without_optionals() {
    let event = OrderModifyRejected::new(
        TraderId::new("TRADER-001".to_string()).unwrap(),
        StrategyId::new("EMA-CROSS-01".to_string()).unwrap(),
        InstrumentId::new("BTCUSDT.COINBASE".to_string()).unwrap(),
        ClientOrderId::new("O-19700101-0000-000-001-1".to_string()).unwrap(),
        "ORDER_DOES_NOT_EXIST".to_string(),
        UUID4::new(7),
        1_500_000_000,
        2,
        false,
        None,
        None,
    )
    .unwrap();
    assert_eq!(
        event.to_display_string(),
        "OrderModifyRejected(instrument_id=BTCUSDT.COINBASE, client_order_id=O-19700101-0000-000-001-1, venue_order_id=None, account_id=None, reason='ORDER_DOES_NOT_EXIST', ts_event=1500000000)"
    );
}

#[test]
fn test_empty_identifier_rejected() {
    assert_eq!(
        TraderId::new("".to_string()).unwrap_err(),
        ValidationError::EmptyIdentifier
    );
    assert_eq!(
        ClientOrderId::new(String::new()).unwrap_err(),
        ValidationError::EmptyIdentifier
    );
    assert!(InstrumentId::new("BTCUSDT.COINBASE".to_string()).is_ok());
}

#[test]
fn test_empty_reason_rejected() {
    let r = OrderEvent::new(
        header(1, 0, 0, false),
        EventBody::Rejected {
            reason: String::new(),
        },
    );
    assert_eq!(r.unwrap_err(), ValidationError::EmptyReason);
}

#[test]
fn test_zero_quantity_rejected() {
    let r = OrderEvent::new(
        header(1, 0, 0, false),
        EventBody::Filled {
            last_qty: 0,
            last_px: 100,
            liquidity_side: order_core::events::LiquiditySide::Taker,
            commission: 0,
        },
    );
    assert_eq!(r.unwrap_err(), ValidationError::ZeroQuantity);
    let r = OrderEvent::new(
        header(1, 0, 0, false),
        EventBody::Updated {
            quantity: Some(0),
            price: None,
            trigger_price: None,
        },
    );
    assert_eq!(r.unwrap_err(), ValidationError::ZeroQuantity);
}

#[test]
fn test_event_kind_and_accessors() {
    let e = OrderEvent::new(
        header(42, 5, 6, true),
        EventBody::ModifyRejected {
            reason: "ORDER_DOES_NOT_EXIST".to_string(),
        },
    )
    .unwrap();
    assert_eq!(e.kind(), EventKind::ModifyRejected);
    assert_eq!(e.id().value, 42);
    assert_eq!(e.ts_event(), 5);
    assert_eq!(e.ts_init(), 6);
    assert!(e.reconciliation());
    assert_eq!(e.reason().unwrap(), "ORDER_DOES_NOT_EXIST");
}

#[test]
fn test_modify_rejected_to_event() {
    let e = modify_rejected_fixture().to_event();
    assert_eq!(e.kind(), EventKind::ModifyRejected);
    assert_eq!(e.reason().unwrap(), "ORDER_DOES_NOT_EXIST");
    assert_eq!(e.ts_event(), 0);
    assert!(!e.reconciliation());
}

#[test]
fn test_decimal_rendering() {
    assert_eq!(order_core::text::dec_str(0), "0");
    assert_eq!(order_core::text::dec_str(7), "7");
    assert_eq!(order_core::text::dec_str(10), "10");
    assert_eq!(order_core::text::dec_str(1_500_000_000), "1500000000");
    assert_eq!(order_core::text::dec_str(u64::MAX), "18446744073709551615");
}
