//! The wire codec: a round trip for every variant and a representative
//! sample of optional-field combinations, and rejection of malformed input.

use order_core::codec::{decode, encode};
use order_core::events::{
    EventBody, EventHeader, EventKind, LiquiditySide, OrderEvent, OrderSide, OrderType,
    TimeInForce,
};
use order_core::identifiers::{
    AccountId, ClientOrderId, InstrumentId, StrategyId, TraderId, VenueOrderId, UUID4,
};

fn header(event_id: u128, reconciliation: bool, with_optionals: bool) -> EventHeader {
    EventHeader {
        trader_id: TraderId::new("TRADER-001".to_string()).unwrap(),
        strategy_id: StrategyId::new("EMA-CROSS-01".to_string()).unwrap(),
        instrument_id: InstrumentId::new("BTCUSDT.COINBASE".to_string()).unwrap(),
        client_order_id: ClientOrderId::new("O-19700101-0000-000-001-1".to_string()).unwrap(),
        event_id: UUID4::new(event_id),
        ts_event: 1_650_000_000_000_000_000,
        ts_init: 1_650_000_000_000_000_123,
        reconciliation,
        venue_order_id: if with_optionals {
            Some(VenueOrderId::new("001".to_string()).unwrap())
        } else {
            None
        },
        account_id: if with_optionals {
            Some(AccountId::new("SIM-001".to_string()).unwrap())
        } else {
            None
        },
    }
}

fn assert_round_trip(e: &OrderEvent) {
    let bytes = encode(e);
    let back = decode(bytes.as_slice()).expect("a canonical encoding must decode");
    assert_eq!(back.kind(), e.kind());
    assert_eq!(back.id().value, e.id().value);
    assert_eq!(back.ts_event(), e.ts_event());
    assert_eq!(back.ts_init(), e.ts_init());
    assert_eq!(back.reconciliation(), e.reconciliation());
    assert_eq!(back.reason().map(|s| s.clone()), e.reason().map(|s| s.clone()));
    // the decoded value re-encodes to the same bytes: bit-identical
    assert_eq!(encode(&back), bytes);
}

fn all_bodies() -> Vec<EventBody> {
    vec![
        EventBody::Initialized {
            order_side: OrderSide::Sell,
            order_type: OrderType::StopLimit,
            quantity: 25,
            time_in_force: TimeInForce::Gtd,
            post_only: true,
            reduce_only: false,
        },
        EventBody::Denied {
            reason: "EXCEEDS_MAX_NOTIONAL".to_string(),
        },
        EventBody::Submitted,
        EventBody::Accepted,
        EventBody::Rejected {
            reason: "INSUFFICIENT_MARGIN".to_string(),
        },
        EventBody::Canceled,
        EventBody::Expired {
            expire_time: Some(1_700_000_000),
        },
        EventBody::Triggered,
        EventBody::PendingUpdate,
        EventBody::PendingCancel,
        EventBody::ModifyRejected {
            reason: "ORDER_DOES_NOT_EXIST".to_string(),
        },
        EventBody::CancelRejected {
            reason: "TOO_LATE_TO_CANCEL".to_string(),
        },
        EventBody::Updated {
            quantity: Some(12),
            price: None,
            trigger_price: Some(99_000),
        },
        EventBody::Filled {
            last_qty: 4,
            last_px: 100_250,
            liquidity_side: LiquiditySide::Maker,
            commission: 17,
        },
    ]
}

#[test]
fn test_round_trip_every_variant() {
    let mut id: u128 = 1;
    for body in all_bodies() {
        let e = OrderEvent::new(header(id, false, true), body).unwrap();
        assert_round_trip(&e);
        id += 1;
    }
}

#[test]
fn test_round_trip_optional_combinations() {
    let combos = [
        (false, false),
        (false, true),
        (true, false),
        (true, true),
    ];
    let mut id: u128 = 100;
    for (recon, with_optionals) in combos {
        let e = OrderEvent::new(
            header(id, recon, with_optionals),
            EventBody::Expired { expire_time: None },
        )
        .unwrap();
        assert_round_trip(&e);
        id += 1;
    }
}

#[test]
fn test_round_trip_large_values() {
    let mut h = header(u128::MAX, true, true);
    h.ts_event = u64::MAX;
    h.ts_init = u64::MAX;
    let e = OrderEvent::new(
        h,
        EventBody::Filled {
            last_qty: u64::MAX,
            last_px: u64::MAX,
            liquidity_side: LiquiditySide::Taker,
            commission: u64::MAX,
        },
    )
    .unwrap();
    assert_round_trip(&e);
}

#[test]
fn test_decoded_payload_matches() {
    let e = OrderEvent::new(
        header(7, false, false),
        EventBody::Filled {
            last_qty: 4,
            last_px: 100_250,
            liquidity_side: LiquiditySide::Maker,
            commission: 17,
        },
    )
    .unwrap();
    let back = decode(encode(&e).as_slice()).unwrap();
    assert_eq!(back.kind(), EventKind::Filled);
    match back.body {
        EventBody::Filled {
            last_qty,
            last_px,
            liquidity_side,
            commission,
        } => {
            assert_eq!(last_qty, 4);
            assert_eq!(last_px, 100_250);
            assert_eq!(liquidity_side, LiquiditySide::Maker);
            assert_eq!(commission, 17);
        }
        _ => panic!("wrong variant decoded"),
    }
    assert_eq!(back.header.trader_id.as_str(), "TRADER-001");
    assert_eq!(back.header.instrument_id.as_str(), "BTCUSDT.COINBASE");
}

#[test]
fn test_decode_rejects_malformed_input() {
    let e = OrderEvent::new(header(7, false, true), EventBody::Submitted).unwrap();
    let bytes = encode(&e);
    // truncation
    assert!(decode(&bytes[..bytes.len() - 1]).is_none());
    // trailing garbage
    let mut longer = bytes.clone();
    longer.push(0);
    assert!(decode(longer.as_slice()).is_none());
    // empty input
    assert!(decode(&[]).is_none());
    // unknown variant tag
    let mut bad = bytes.clone();
    let last = bad.len() - 1;
    bad[last] = 200;
    assert!(decode(bad.as_slice()).is_none());
}
