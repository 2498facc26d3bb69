//! Spot checks of the transition table and a pseudo-random fill-sequence
//! property test.

use order_core::aggregate::OrderAggregate;
use order_core::events::{
    EventBody, EventHeader, EventKind, LiquiditySide, OrderEvent, OrderSide, OrderType,
    TimeInForce,
};
use order_core::identifiers::{ClientOrderId, InstrumentId, StrategyId, TraderId, UUID4};
use order_core::status::OrderStatus;
use order_core::transitions::{transition, TransitionTarget};

#[test]
fn test_no_edge_leaves_a_terminal_status() {
    let terminal = [
        OrderStatus::Denied,
        OrderStatus::Rejected,
        OrderStatus::Canceled,
        OrderStatus::Expired,
        OrderStatus::Filled,
    ];
    let kinds = [
        EventKind::Initialized,
        EventKind::Denied,
        EventKind::Submitted,
        EventKind::Accepted,
        EventKind::Rejected,
        EventKind::Canceled,
        EventKind::Expired,
        EventKind::Triggered,
        EventKind::PendingUpdate,
        EventKind::PendingCancel,
        EventKind::ModifyRejected,
        EventKind::CancelRejected,
        EventKind::Updated,
        EventKind::Filled,
    ];
    for s in terminal {
        for k in kinds {
            assert!(transition(s, k).is_none());
        }
    }
}

#[test]
fn test_every_live_status_has_an_outgoing_edge() {
    let live = [
        OrderStatus::Initialized,
        OrderStatus::Submitted,
        OrderStatus::Accepted,
        OrderStatus::Triggered,
        OrderStatus::PendingUpdate,
        OrderStatus::PendingCancel,
        OrderStatus::PartiallyFilled,
    ];
    let kinds = [
        EventKind::Denied,
        EventKind::Submitted,
        EventKind::Accepted,
        EventKind::Canceled,
        EventKind::Expired,
        EventKind::ModifyRejected,
        EventKind::Updated,
        EventKind::Filled,
    ];
    for s in live {
        assert!(kinds.iter().any(|k| transition(s, *k).is_some()));
    }
}

#[test]
fn test_fill_edges_resolve_by_payload() {
    assert_eq!(
        transition(OrderStatus::Accepted, EventKind::Filled),
        Some(TransitionTarget::FillResolved)
    );
    assert_eq!(
        transition(OrderStatus::PendingUpdate, EventKind::Updated),
        Some(TransitionTarget::ActiveResolved)
    );
    assert_eq!(
        transition(OrderStatus::Submitted, EventKind::ModifyRejected),
        Some(TransitionTarget::Fixed(OrderStatus::Submitted))
    );
    assert_eq!(transition(OrderStatus::Initialized, EventKind::Filled), None);
}

fn header(event_id: u128, ts: u64) -> EventHeader {
    EventHeader {
        trader_id: TraderId::new("TRADER-001".to_string()).unwrap(),
        strategy_id: StrategyId::new("EMA-CROSS-01".to_string()).unwrap(),
        instrument_id: InstrumentId::new("BTCUSDT.COINBASE".to_string()).unwrap(),
        client_order_id: ClientOrderId::new("O-19700101-0000-000-001-1".to_string()).unwrap(),
        event_id: UUID4::new(event_id),
        ts_event: ts,
        ts_init: ts,
        reconciliation: false,
        venue_order_id: None,
        account_id: None,
    }
}

#[test]
fn test_randomized_fill_sequences_keep_quantity_monotonic() {
    // a fixed-seed linear congruential generator: reproducible "random" fills
    let mut state: u64 = 0x2545_f491_4f6c_dd1d;
    let mut next = move || {
        state = state
            .wrapping_mul(6364136223846793005)
            .wrapping_add(1442695040888963407);
        state >> 33
    };
    for round in 0..50u64 {
        let total = next() % 1_000 + 1;
        let init = OrderEvent::new(
            header(u128::from(round) * 1_000 + 1, 0),
            EventBody::Initialized {
                order_side: OrderSide::Buy,
                order_type: OrderType::Market,
                quantity: total,
                time_in_force: TimeInForce::Ioc,
                post_only: false,
                reduce_only: false,
            },
        )
        .unwrap();
        let mut agg = OrderAggregate::new(&init);
        agg.apply(
            &OrderEvent::new(
                header(u128::from(round) * 1_000 + 2, 1),
                EventBody::Submitted,
            )
            .unwrap(),
        )
        .unwrap();
        agg.apply(
            &OrderEvent::new(
                header(u128::from(round) * 1_000 + 3, 2),
                EventBody::Accepted,
            )
            .unwrap(),
        )
        .unwrap();
        let mut prev_filled: u64 = 0;
        for i in 0..20u64 {
            let qty = next() % 300 + 1;
            let px = next() % 10_000 + 1;
            let fill = OrderEvent::new(
                header(u128::from(round) * 1_000 + 10 + u128::from(i), 3 + i),
                EventBody::Filled {
                    last_qty: qty,
                    last_px: px,
                    liquidity_side: LiquiditySide::Taker,
                    commission: 0,
                },
            )
            .unwrap();
            let _ = agg.apply(&fill);
            assert!(agg.filled_qty() >= prev_filled);
            assert!(agg.filled_qty() <= agg.total_qty());
            prev_filled = agg.filled_qty();
        }
    }
}

#[test]
fn test_uuid_canonical_rendering() {
    assert_eq!(
        UUID4::new(0).to_canonical_string(),
        "00000000-0000-0000-0000-000000000000"
    );
    assert_eq!(
        UUID4::new(u128::MAX).to_canonical_string(),
        "ffffffff-ffff-ffff-ffff-ffffffffffff"
    );
    assert_eq!(
        UUID4::new(0x1234_5678_9abc_def0_1122_3344_5566_7788).to_canonical_string(),
        "12345678-9abc-def0-1122-334455667788"
    );
}
