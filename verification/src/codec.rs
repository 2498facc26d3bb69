//! The canonical wire form of an event.
//!
//! Every variant serializes to a tagged byte string: the header fields in a
//! stable order, then a one-byte variant tag, then the variant payload.
//! Integers are little-endian; strings are UTF-8 with a 64-bit byte-length
//! prefix; optional fields carry a one-byte presence tag. [`decode`]
//! reconstructs a bit-identical value, which [`lemma_round_trip`] proves:
//! decoding an encoding yields exactly the encoded event.

use vstd::prelude::*;

use vstd::bytes::{
    lemma_auto_spec_u128_to_from_le_bytes, lemma_auto_spec_u64_to_from_le_bytes,
    spec_u128_from_le_bytes, spec_u128_to_le_bytes, spec_u64_from_le_bytes, spec_u64_to_le_bytes,
    u128_from_le_bytes, u128_to_le_bytes, u64_from_le_bytes, u64_to_le_bytes,
};
use vstd::slice::{slice_subrange, slice_to_vec};
use vstd::utf8::{
    decode_utf8, encode_utf8, encode_utf8_decode_utf8, encode_utf8_valid_utf8, valid_utf8,
};

use crate::events::{
    EventBody, EventBodyView, EventHeader, LiquiditySide, OrderEvent, OrderEventView, OrderSide,
    OrderType, TimeInForce,
};
use crate::identifiers::{
    AccountId, ClientOrderId, InstrumentId, StrategyId, TraderId, VenueOrderId, UUID4,
};

verus! {

// ---------------------------------------------------------------------------
// Spec encoders for the primitive shapes.
// ---------------------------------------------------------------------------
pub open spec fn enc_u64(x: u64) -> Seq<u8> {
    spec_u64_to_le_bytes(x)
}

pub open spec fn enc_u128(x: u128) -> Seq<u8> {
    spec_u128_to_le_bytes(x)
}

pub open spec fn enc_bool(b: bool) -> Seq<u8> {
    if b {
        seq![1u8]
    } else {
        seq![0u8]
    }
}

/// A string: 64-bit byte length, then the UTF-8 bytes.
pub open spec fn enc_str(s: Seq<char>) -> Seq<u8> {
    enc_u64(encode_utf8(s).len() as u64) + encode_utf8(s)
}

/// An optional string: presence tag, then the string if present.
pub open spec fn enc_opt_str(o: Option<Seq<char>>) -> Seq<u8> {
    match o {
        None => seq![0u8],
        Some(s) => seq![1u8] + enc_str(s),
    }
}

/// An optional integer: presence tag, then the integer if present.
pub open spec fn enc_opt_u64(o: Option<u64>) -> Seq<u8> {
    match o {
        None => seq![0u8],
        Some(x) => seq![1u8] + enc_u64(x),
    }
}

// ---------------------------------------------------------------------------
// Spec readers: each consumes its shape from the front and returns the value
// and the remainder, or `None` when the input does not start with the shape.
// ---------------------------------------------------------------------------
pub open spec fn read_u8(s: Seq<u8>) -> Option<(u8, Seq<u8>)> {
    if s.len() >= 1 {
        Some((s[0], s.skip(1)))
    } else {
        None
    }
}

pub open spec fn read_u64(s: Seq<u8>) -> Option<(u64, Seq<u8>)> {
    if s.len() >= 8 {
        Some((spec_u64_from_le_bytes(s.take(8)), s.skip(8)))
    } else {
        None
    }
}

pub open spec fn read_u128(s: Seq<u8>) -> Option<(u128, Seq<u8>)> {
    if s.len() >= 16 {
        Some((spec_u128_from_le_bytes(s.take(16)), s.skip(16)))
    } else {
        None
    }
}

/// Only the canonical tags 0 and 1 decode as a boolean.
pub open spec fn read_bool(s: Seq<u8>) -> Option<(bool, Seq<u8>)> {
    match read_u8(s) {
        None => None,
        Some((t, r)) => if t == 0 {
            Some((false, r))
        } else if t == 1 {
            Some((true, r))
        } else {
            None
        },
    }
}

pub open spec fn read_str(s: Seq<u8>) -> Option<(Seq<char>, Seq<u8>)> {
    match read_u64(s) {
        None => None,
        Some((n, r)) => if n <= r.len() && valid_utf8(r.take(n as int)) {
            Some((decode_utf8(r.take(n as int)), r.skip(n as int)))
        } else {
            None
        },
    }
}

pub open spec fn read_opt_str(s: Seq<u8>) -> Option<(Option<Seq<char>>, Seq<u8>)> {
    match read_u8(s) {
        None => None,
        Some((t, r)) => if t == 0 {
            Some((None, r))
        } else if t == 1 {
            match read_str(r) {
                None => None,
                Some((st, r2)) => Some((Some(st), r2)),
            }
        } else {
            None
        },
    }
}

pub open spec fn read_opt_u64(s: Seq<u8>) -> Option<(Option<u64>, Seq<u8>)> {
    match read_u8(s) {
        None => None,
        Some((t, r)) => if t == 0 {
            Some((None, r))
        } else if t == 1 {
            match read_u64(r) {
                None => None,
                Some((x, r2)) => Some((Some(x), r2)),
            }
        } else {
            None
        },
    }
}

// ---------------------------------------------------------------------------
// Reading back what was encoded.
// ---------------------------------------------------------------------------
proof fn lemma_read_u8(t: u8, rest: Seq<u8>)
    ensures
        read_u8(seq![t] + rest) == Some((t, rest)),
{
    assert((seq![t] + rest)[0] == t);
    assert((seq![t] + rest).skip(1) =~= rest);
}

proof fn lemma_read_u64(x: u64, rest: Seq<u8>)
    ensures
        read_u64(enc_u64(x) + rest) == Some((x, rest)),
{
    lemma_auto_spec_u64_to_from_le_bytes();
    assert((enc_u64(x) + rest).take(8) =~= enc_u64(x));
    assert((enc_u64(x) + rest).skip(8) =~= rest);
}

proof fn lemma_read_u128(x: u128, rest: Seq<u8>)
    ensures
        read_u128(enc_u128(x) + rest) == Some((x, rest)),
{
    lemma_auto_spec_u128_to_from_le_bytes();
    assert((enc_u128(x) + rest).take(16) =~= enc_u128(x));
    assert((enc_u128(x) + rest).skip(16) =~= rest);
}

proof fn lemma_read_bool(b: bool, rest: Seq<u8>)
    ensures
        read_bool(enc_bool(b) + rest) == Some((b, rest)),
{
    if b {
        lemma_read_u8(1u8, rest);
    } else {
        lemma_read_u8(0u8, rest);
    }
}

/// A string whose UTF-8 encoding fits the 64-bit length prefix.
pub open spec fn str_encodable(s: Seq<char>) -> bool {
    encode_utf8(s).len() <= u64::MAX
}

proof fn lemma_read_str(s: Seq<char>, rest: Seq<u8>)
    requires
        str_encodable(s),
    ensures
        read_str(enc_str(s) + rest) == Some((s, rest)),
{
    let bytes = encode_utf8(s);
    let n = bytes.len() as u64;
    assert(enc_str(s) + rest =~= enc_u64(n) + (bytes + rest));
    lemma_read_u64(n, bytes + rest);
    assert((bytes + rest).take(n as int) =~= bytes);
    assert((bytes + rest).skip(n as int) =~= rest);
    encode_utf8_valid_utf8(s);
    encode_utf8_decode_utf8(s);
}

pub open spec fn opt_str_encodable(o: Option<Seq<char>>) -> bool {
    o matches Some(s) ==> str_encodable(s)
}

proof fn lemma_read_opt_str(o: Option<Seq<char>>, rest: Seq<u8>)
    requires
        opt_str_encodable(o),
    ensures
        read_opt_str(enc_opt_str(o) + rest) == Some((o, rest)),
{
    match o {
        None => {
            lemma_read_u8(0u8, rest);
        },
        Some(s) => {
            assert(enc_opt_str(o) + rest =~= seq![1u8] + (enc_str(s) + rest));
            lemma_read_u8(1u8, enc_str(s) + rest);
            lemma_read_str(s, rest);
        },
    }
}

proof fn lemma_read_opt_u64(o: Option<u64>, rest: Seq<u8>)
    ensures
        read_opt_u64(enc_opt_u64(o) + rest) == Some((o, rest)),
{
    match o {
        None => {
            lemma_read_u8(0u8, rest);
        },
        Some(x) => {
            assert(enc_opt_u64(o) + rest =~= seq![1u8] + (enc_u64(x) + rest));
            lemma_read_u8(1u8, enc_u64(x) + rest);
            lemma_read_u64(x, rest);
        },
    }
}

// ---------------------------------------------------------------------------
// Enum tags.
// ---------------------------------------------------------------------------
pub open spec fn side_tag(x: OrderSide) -> u8 {
    match x {
        OrderSide::Buy => 0,
        OrderSide::Sell => 1,
    }
}

pub open spec fn side_of(t: u8) -> Option<OrderSide> {
    if t == 0 {
        Some(OrderSide::Buy)
    } else if t == 1 {
        Some(OrderSide::Sell)
    } else {
        None
    }
}

pub open spec fn otype_tag(x: OrderType) -> u8 {
    match x {
        OrderType::Market => 0,
        OrderType::Limit => 1,
        OrderType::StopMarket => 2,
        OrderType::StopLimit => 3,
    }
}

pub open spec fn otype_of(t: u8) -> Option<OrderType> {
    if t == 0 {
        Some(OrderType::Market)
    } else if t == 1 {
        Some(OrderType::Limit)
    } else if t == 2 {
        Some(OrderType::StopMarket)
    } else if t == 3 {
        Some(OrderType::StopLimit)
    } else {
        None
    }
}

pub open spec fn tif_tag(x: TimeInForce) -> u8 {
    match x {
        TimeInForce::Gtc => 0,
        TimeInForce::Ioc => 1,
        TimeInForce::Fok => 2,
        TimeInForce::Gtd => 3,
        TimeInForce::Day => 4,
    }
}

pub open spec fn tif_of(t: u8) -> Option<TimeInForce> {
    if t == 0 {
        Some(TimeInForce::Gtc)
    } else if t == 1 {
        Some(TimeInForce::Ioc)
    } else if t == 2 {
        Some(TimeInForce::Fok)
    } else if t == 3 {
        Some(TimeInForce::Gtd)
    } else if t == 4 {
        Some(TimeInForce::Day)
    } else {
        None
    }
}

pub open spec fn liq_tag(x: LiquiditySide) -> u8 {
    match x {
        LiquiditySide::Maker => 0,
        LiquiditySide::Taker => 1,
    }
}

pub open spec fn liq_of(t: u8) -> Option<LiquiditySide> {
    if t == 0 {
        Some(LiquiditySide::Maker)
    } else if t == 1 {
        Some(LiquiditySide::Taker)
    } else {
        None
    }
}

/// The wire tag of a variant, in declaration order of [`EventBodyView`].
pub open spec fn body_tag(b: EventBodyView) -> u8 {
    match b {
        EventBodyView::Initialized { .. } => 0,
        EventBodyView::Denied { .. } => 1,
        EventBodyView::Submitted => 2,
        EventBodyView::Accepted => 3,
        EventBodyView::Rejected { .. } => 4,
        EventBodyView::Canceled => 5,
        EventBodyView::Expired { .. } => 6,
        EventBodyView::Triggered => 7,
        EventBodyView::PendingUpdate => 8,
        EventBodyView::PendingCancel => 9,
        EventBodyView::ModifyRejected { .. } => 10,
        EventBodyView::CancelRejected { .. } => 11,
        EventBodyView::Updated { .. } => 12,
        EventBodyView::Filled { .. } => 13,
    }
}

/// The variant payload that follows the tag.
pub open spec fn enc_payload(b: EventBodyView) -> Seq<u8> {
    match b {
        EventBodyView::Initialized {
            order_side,
            order_type,
            quantity,
            time_in_force,
            post_only,
            reduce_only,
        } => seq![side_tag(order_side)] + (seq![otype_tag(order_type)] + (enc_u64(quantity) + (
        seq![tif_tag(time_in_force)] + (enc_bool(post_only) + enc_bool(reduce_only))))),
        EventBodyView::Denied { reason } => enc_str(reason),
        EventBodyView::Submitted => Seq::empty(),
        EventBodyView::Accepted => Seq::empty(),
        EventBodyView::Rejected { reason } => enc_str(reason),
        EventBodyView::Canceled => Seq::empty(),
        EventBodyView::Expired { expire_time } => enc_opt_u64(expire_time),
        EventBodyView::Triggered => Seq::empty(),
        EventBodyView::PendingUpdate => Seq::empty(),
        EventBodyView::PendingCancel => Seq::empty(),
        EventBodyView::ModifyRejected { reason } => enc_str(reason),
        EventBodyView::CancelRejected { reason } => enc_str(reason),
        EventBodyView::Updated { quantity, price, trigger_price } => enc_opt_u64(quantity) + (
        enc_opt_u64(price) + enc_opt_u64(trigger_price)),
        EventBodyView::Filled { last_qty, last_px, liquidity_side, commission } => enc_u64(
            last_qty,
        ) + (enc_u64(last_px) + (seq![liq_tag(liquidity_side)] + enc_u64(commission))),
    }
}

/// The payload reader for a variant tag.
pub open spec fn read_body(tag: u8, s: Seq<u8>) -> Option<(EventBodyView, Seq<u8>)> {
    if tag == 0 {
        match read_u8(s) {
            None => None,
            Some((t1, s)) => match side_of(t1) {
                None => None,
                Some(order_side) => match read_u8(s) {
                    None => None,
                    Some((t2, s)) => match otype_of(t2) {
                        None => None,
                        Some(order_type) => match read_u64(s) {
                            None => None,
                            Some((quantity, s)) => match read_u8(s) {
                                None => None,
                                Some((t3, s)) => match tif_of(t3) {
                                    None => None,
                                    Some(time_in_force) => match read_bool(s) {
                                        None => None,
                                        Some((post_only, s)) => match read_bool(s) {
                                            None => None,
                                            Some((reduce_only, s)) => Some(
                                                (
                                                    EventBodyView::Initialized {
                                                        order_side,
                                                        order_type,
                                                        quantity,
                                                        time_in_force,
                                                        post_only,
                                                        reduce_only,
                                                    },
                                                    s,
                                                ),
                                            ),
                                        },
                                    },
                                },
                            },
                        },
                    },
                },
            },
        }
    } else if tag == 1 {
        match read_str(s) {
            None => None,
            Some((reason, s)) => Some((EventBodyView::Denied { reason }, s)),
        }
    } else if tag == 2 {
        Some((EventBodyView::Submitted, s))
    } else if tag == 3 {
        Some((EventBodyView::Accepted, s))
    } else if tag == 4 {
        match read_str(s) {
            None => None,
            Some((reason, s)) => Some((EventBodyView::Rejected { reason }, s)),
        }
    } else if tag == 5 {
        Some((EventBodyView::Canceled, s))
    } else if tag == 6 {
        match read_opt_u64(s) {
            None => None,
            Some((expire_time, s)) => Some((EventBodyView::Expired { expire_time }, s)),
        }
    } else if tag == 7 {
        Some((EventBodyView::Triggered, s))
    } else if tag == 8 {
        Some((EventBodyView::PendingUpdate, s))
    } else if tag == 9 {
        Some((EventBodyView::PendingCancel, s))
    } else if tag == 10 {
        match read_str(s) {
            None => None,
            Some((reason, s)) => Some((EventBodyView::ModifyRejected { reason }, s)),
        }
    } else if tag == 11 {
        match read_str(s) {
            None => None,
            Some((reason, s)) => Some((EventBodyView::CancelRejected { reason }, s)),
        }
    } else if tag == 12 {
        match read_opt_u64(s) {
            None => None,
            Some((quantity, s)) => match read_opt_u64(s) {
                None => None,
                Some((price, s)) => match read_opt_u64(s) {
                    None => None,
                    Some((trigger_price, s)) => Some(
                        (EventBodyView::Updated { quantity, price, trigger_price }, s),
                    ),
                },
            },
        }
    } else if tag == 13 {
        match read_u64(s) {
            None => None,
            Some((last_qty, s)) => match read_u64(s) {
                None => None,
                Some((last_px, s)) => match read_u8(s) {
                    None => None,
                    Some((t1, s)) => match liq_of(t1) {
                        None => None,
                        Some((liquidity_side)) => match read_u64(s) {
                            None => None,
                            Some((commission, s)) => Some(
                                (
                                    EventBodyView::Filled {
                                        last_qty,
                                        last_px,
                                        liquidity_side,
                                        commission,
                                    },
                                    s,
                                ),
                            ),
                        },
                    },
                },
            },
        }
    } else {
        None
    }
}

/// Every string field of the event fits its 64-bit length prefix. True of
/// every event the executable constructors can build.
pub open spec fn encodable(e: OrderEventView) -> bool {
    &&& str_encodable(e.trader_id)
    &&& str_encodable(e.strategy_id)
    &&& str_encodable(e.instrument_id)
    &&& str_encodable(e.client_order_id)
    &&& opt_str_encodable(e.venue_order_id)
    &&& opt_str_encodable(e.account_id)
    &&& match e.body {
        EventBodyView::Denied { reason } => str_encodable(reason),
        EventBodyView::Rejected { reason } => str_encodable(reason),
        EventBodyView::ModifyRejected { reason } => str_encodable(reason),
        EventBodyView::CancelRejected { reason } => str_encodable(reason),
        _ => true,
    }
}

/// The canonical wire form of an event.
pub open spec fn spec_encode(e: OrderEventView) -> Seq<u8> {
    enc_str(e.trader_id) + (enc_str(e.strategy_id) + (enc_str(e.instrument_id) + (enc_str(
        e.client_order_id,
    ) + (enc_u128(e.event_id) + (enc_u64(e.ts_event) + (enc_u64(e.ts_init) + (enc_bool(
        e.reconciliation,
    ) + (enc_opt_str(e.venue_order_id) + (enc_opt_str(e.account_id) + (seq![body_tag(e.body)]
        + enc_payload(e.body)))))))))))
}

/// The decoder: header fields in order, variant tag, payload, nothing left.
pub open spec fn spec_decode(s: Seq<u8>) -> Option<OrderEventView> {
    match read_str(s) {
        None => None,
        Some((trader_id, s)) => match read_str(s) {
            None => None,
            Some((strategy_id, s)) => match read_str(s) {
                None => None,
                Some((instrument_id, s)) => match read_str(s) {
                    None => None,
                    Some((client_order_id, s)) => match read_u128(s) {
                        None => None,
                        Some((event_id, s)) => match read_u64(s) {
                            None => None,
                            Some((ts_event, s)) => match read_u64(s) {
                                None => None,
                                Some((ts_init, s)) => match read_bool(s) {
                                    None => None,
                                    Some((reconciliation, s)) => match read_opt_str(s) {
                                        None => None,
                                        Some((venue_order_id, s)) => match read_opt_str(s) {
                                            None => None,
                                            Some((account_id, s)) => match read_u8(s) {
                                                None => None,
                                                Some((tag, s)) => match read_body(tag, s) {
                                                    None => None,
                                                    Some((body, s)) => if s.len() == 0 {
                                                        Some(
                                                            OrderEventView {
                                                                trader_id,
                                                                strategy_id,
                                                                instrument_id,
                                                                client_order_id,
                                                                event_id,
                                                                ts_event,
                                                                ts_init,
                                                                reconciliation,
                                                                venue_order_id,
                                                                account_id,
                                                                body,
                                                            },
                                                        )
                                                    } else {
                                                        None
                                                    },
                                                },
                                            },
                                        },
                                    },
                                },
                            },
                        },
                    },
                },
            },
        },
    }
}

/// Reading a variant payload back from its encoding.
proof fn lemma_read_payload(b: EventBodyView)
    requires
        match b {
            EventBodyView::Denied { reason } => str_encodable(reason),
            EventBodyView::Rejected { reason } => str_encodable(reason),
            EventBodyView::ModifyRejected { reason } => str_encodable(reason),
            EventBodyView::CancelRejected { reason } => str_encodable(reason),
            _ => true,
        },
    ensures
        read_body(body_tag(b), enc_payload(b)) == Some((b, Seq::<u8>::empty())),
{
    let empty = Seq::<u8>::empty();
    match b {
        EventBodyView::Initialized {
            order_side,
            order_type,
            quantity,
            time_in_force,
            post_only,
            reduce_only,
        } => {
            let p5 = enc_bool(reduce_only);
            let p4 = enc_bool(post_only) + p5;
            let p3 = seq![tif_tag(time_in_force)] + p4;
            let p2 = enc_u64(quantity) + p3;
            let p1 = seq![otype_tag(order_type)] + p2;
            lemma_read_u8(side_tag(order_side), p1);
            lemma_read_u8(otype_tag(order_type), p2);
            lemma_read_u64(quantity, p3);
            lemma_read_u8(tif_tag(time_in_force), p4);
            lemma_read_bool(post_only, p5);
            assert(p5 =~= enc_bool(reduce_only) + empty);
            lemma_read_bool(reduce_only, empty);
        },
        EventBodyView::Denied { reason } => {
            assert(enc_payload(b) =~= enc_str(reason) + empty);
            lemma_read_str(reason, empty);
        },
        EventBodyView::Rejected { reason } => {
            assert(enc_payload(b) =~= enc_str(reason) + empty);
            lemma_read_str(reason, empty);
        },
        EventBodyView::ModifyRejected { reason } => {
            assert(enc_payload(b) =~= enc_str(reason) + empty);
            lemma_read_str(reason, empty);
        },
        EventBodyView::CancelRejected { reason } => {
            assert(enc_payload(b) =~= enc_str(reason) + empty);
            lemma_read_str(reason, empty);
        },
        EventBodyView::Expired { expire_time } => {
            assert(enc_payload(b) =~= enc_opt_u64(expire_time) + empty);
            lemma_read_opt_u64(expire_time, empty);
        },
        EventBodyView::Updated { quantity, price, trigger_price } => {
            let p2 = enc_opt_u64(trigger_price);
            let p1 = enc_opt_u64(price) + p2;
            lemma_read_opt_u64(quantity, p1);
            lemma_read_opt_u64(price, p2);
            assert(p2 =~= enc_opt_u64(trigger_price) + empty);
            lemma_read_opt_u64(trigger_price, empty);
        },
        EventBodyView::Filled { last_qty, last_px, liquidity_side, commission } => {
            let p3 = enc_u64(commission);
            let p2 = seq![liq_tag(liquidity_side)] + p3;
            let p1 = enc_u64(last_px) + p2;
            lemma_read_u64(last_qty, p1);
            lemma_read_u64(last_px, p2);
            lemma_read_u8(liq_tag(liquidity_side), p3);
            assert(p3 =~= enc_u64(commission) + empty);
            lemma_read_u64(commission, empty);
        },
        _ => {
            assert(enc_payload(b) =~= empty);
        },
    }
}

/// The round-trip law: decoding the canonical wire form of any event yields
/// exactly that event, for every variant and every combination of optional
/// fields.
pub proof fn lemma_round_trip(e: OrderEventView)
    requires
        encodable(e),
    ensures
        spec_decode(spec_encode(e)) == Some(e),
{
    let b11 = enc_payload(e.body);
    let b10 = seq![body_tag(e.body)] + b11;
    let b9 = enc_opt_str(e.account_id) + b10;
    let b8 = enc_opt_str(e.venue_order_id) + b9;
    let b7 = enc_bool(e.reconciliation) + b8;
    let b6 = enc_u64(e.ts_init) + b7;
    let b5 = enc_u64(e.ts_event) + b6;
    let b4 = enc_u128(e.event_id) + b5;
    let b3 = enc_str(e.client_order_id) + b4;
    let b2 = enc_str(e.instrument_id) + b3;
    let b1 = enc_str(e.strategy_id) + b2;
    lemma_read_str(e.trader_id, b1);
    lemma_read_str(e.strategy_id, b2);
    lemma_read_str(e.instrument_id, b3);
    lemma_read_str(e.client_order_id, b4);
    lemma_read_u128(e.event_id, b5);
    lemma_read_u64(e.ts_event, b6);
    lemma_read_u64(e.ts_init, b7);
    lemma_read_bool(e.reconciliation, b8);
    lemma_read_opt_str(e.venue_order_id, b9);
    lemma_read_opt_str(e.account_id, b10);
    lemma_read_u8(body_tag(e.body), b11);
    lemma_read_payload(e.body);
    assert(spec_decode(spec_encode(e)) matches Some(v) && v =~= e);
}

// ---------------------------------------------------------------------------
// Executable encoder.
// ---------------------------------------------------------------------------
fn put_u8(out: &mut Vec<u8>, t: u8)
    ensures
        final(out)@ == old(out)@ + seq![t],
{
    out.push(t);
    proof {
        assert(out@ =~= old(out)@ + seq![t]);
    }
}

fn put_bool(out: &mut Vec<u8>, b: bool)
    ensures
        final(out)@ == old(out)@ + enc_bool(b),
{
    if b {
        put_u8(out, 1);
    } else {
        put_u8(out, 0);
    }
}

fn put_u64(out: &mut Vec<u8>, x: u64)
    ensures
        final(out)@ == old(out)@ + enc_u64(x),
{
    let mut bytes = u64_to_le_bytes(x);
    out.append(&mut bytes);
}

fn put_u128(out: &mut Vec<u8>, x: u128)
    ensures
        final(out)@ == old(out)@ + enc_u128(x),
{
    let mut bytes = u128_to_le_bytes(x);
    out.append(&mut bytes);
}

fn put_str(out: &mut Vec<u8>, s: &str)
    ensures
        final(out)@ == old(out)@ + enc_str(s@),
{
    let bytes = s.as_bytes();
    put_u64(out, bytes.len() as u64);
    let mut v = slice_to_vec(bytes);
    out.append(&mut v);
    proof {
        assert(out@ =~= old(out)@ + enc_str(s@));
    }
}

/// Appends the variant tag and payload of `body`.
#[verifier::rlimit(100)]
fn put_body(out: &mut Vec<u8>, body: &EventBody)
    ensures
        final(out)@ == old(out)@ + (seq![body_tag(body@)] + enc_payload(body@)),
{
    match body {
        EventBody::Initialized {
            order_side,
            order_type,
            quantity,
            time_in_force,
            post_only,
            reduce_only,
        } => {
            put_u8(out, 0);
            put_u8(
                out,
                match order_side {
                    OrderSide::Buy => 0,
                    OrderSide::Sell => 1,
                },
            );
            put_u8(
                out,
                match order_type {
                    OrderType::Market => 0,
                    OrderType::Limit => 1,
                    OrderType::StopMarket => 2,
                    OrderType::StopLimit => 3,
                },
            );
            put_u64(out, *quantity);
            put_u8(
                out,
                match time_in_force {
                    TimeInForce::Gtc => 0,
                    TimeInForce::Ioc => 1,
                    TimeInForce::Fok => 2,
                    TimeInForce::Gtd => 3,
                    TimeInForce::Day => 4,
                },
            );
            put_bool(out, *post_only);
            put_bool(out, *reduce_only);
        },
        EventBody::Denied { reason } => {
            put_u8(out, 1);
            put_str(out, reason.as_str());
        },
        EventBody::Submitted => {
            put_u8(out, 2);
        },
        EventBody::Accepted => {
            put_u8(out, 3);
        },
        EventBody::Rejected { reason } => {
            put_u8(out, 4);
            put_str(out, reason.as_str());
        },
        EventBody::Canceled => {
            put_u8(out, 5);
        },
        EventBody::Expired { expire_time } => {
            put_u8(out, 6);
            match expire_time {
                Some(x) => {
                    put_u8(out, 1);
                    put_u64(out, *x);
                },
                None => {
                    put_u8(out, 0);
                },
            }
        },
        EventBody::Triggered => {
            put_u8(out, 7);
        },
        EventBody::PendingUpdate => {
            put_u8(out, 8);
        },
        EventBody::PendingCancel => {
            put_u8(out, 9);
        },
        EventBody::ModifyRejected { reason } => {
            put_u8(out, 10);
            put_str(out, reason.as_str());
        },
        EventBody::CancelRejected { reason } => {
            put_u8(out, 11);
            put_str(out, reason.as_str());
        },
        EventBody::Updated { quantity, price, trigger_price } => {
            put_u8(out, 12);
            match quantity {
                Some(x) => {
                    put_u8(out, 1);
                    put_u64(out, *x);
                },
                None => {
                    put_u8(out, 0);
                },
            }
            match price {
                Some(x) => {
                    put_u8(out, 1);
                    put_u64(out, *x);
                },
                None => {
                    put_u8(out, 0);
                },
            }
            match trigger_price {
                Some(x) => {
                    put_u8(out, 1);
                    put_u64(out, *x);
                },
                None => {
                    put_u8(out, 0);
                },
            }
        },
        EventBody::Filled { last_qty, last_px, liquidity_side, commission } => {
            put_u8(out, 13);
            put_u64(out, *last_qty);
            put_u64(out, *last_px);
            put_u8(
                out,
                match liquidity_side {
                    LiquiditySide::Maker => 0,
                    LiquiditySide::Taker => 1,
                },
            );
            put_u64(out, *commission);
        },
    }
    proof {
        assert(out@ =~= old(out)@ + (seq![body_tag(body@)] + enc_payload(body@)));
    }
}

/// Encodes an event into its canonical wire form.
#[verifier::rlimit(100)]
pub fn encode(e: &OrderEvent) -> (out: Vec<u8>)
    ensures
        out@ == spec_encode(e@),
{
    let mut out: Vec<u8> = Vec::new();
    put_str(&mut out, e.header.trader_id.as_str());
    put_str(&mut out, e.header.strategy_id.as_str());
    put_str(&mut out, e.header.instrument_id.as_str());
    put_str(&mut out, e.header.client_order_id.as_str());
    put_u128(&mut out, e.header.event_id.value);
    put_u64(&mut out, e.header.ts_event);
    put_u64(&mut out, e.header.ts_init);
    put_bool(&mut out, e.header.reconciliation);
    match &e.header.venue_order_id {
        Some(v) => {
            put_u8(&mut out, 1);
            put_str(&mut out, v.as_str());
        },
        None => {
            put_u8(&mut out, 0);
        },
    }
    match &e.header.account_id {
        Some(a) => {
            put_u8(&mut out, 1);
            put_str(&mut out, a.as_str());
        },
        None => {
            put_u8(&mut out, 0);
        },
    }
    put_body(&mut out, &e.body);
    proof {
        assert(out@ =~= spec_encode(e@));
    }
    out
}

// ---------------------------------------------------------------------------
// Executable decoder.
// ---------------------------------------------------------------------------
/// Relies on `String::from_utf8`: it succeeds exactly on valid UTF-8 input,
/// and the returned string's UTF-8 bytes are the input bytes.
#[verifier::external_body]
fn string_from_utf8(v: Vec<u8>) -> (r: Option<String>)
    ensures
        r is Some <==> valid_utf8(v@),
        r matches Some(st) ==> encode_utf8(st@) == v@,
{
    String::from_utf8(v).ok()
}

fn take_u8(b: &[u8], pos: usize) -> (r: Option<(u8, usize)>)
    requires
        pos <= b@.len(),
    ensures
        match r {
            Some(p) => read_u8(b@.skip(pos as int)) == Some((p.0, b@.skip(p.1 as int))) && pos
                < p.1 <= b@.len(),
            None => read_u8(b@.skip(pos as int)) is None,
        },
{
    if b.len() - pos >= 1 {
        let x = b[pos];
        proof {
            assert(b@.skip(pos as int)[0] == x);
            assert(b@.skip(pos as int).skip(1) =~= b@.skip(pos as int + 1));
        }
        Some((x, pos + 1))
    } else {
        None
    }
}

fn take_bool(b: &[u8], pos: usize) -> (r: Option<(bool, usize)>)
    requires
        pos <= b@.len(),
    ensures
        match r {
            Some(p) => read_bool(b@.skip(pos as int)) == Some((p.0, b@.skip(p.1 as int))) && pos
                < p.1 <= b@.len(),
            None => read_bool(b@.skip(pos as int)) is None,
        },
{
    match take_u8(b, pos) {
        None => None,
        Some((t, p)) => {
            if t == 0 {
                Some((false, p))
            } else if t == 1 {
                Some((true, p))
            } else {
                None
            }
        },
    }
}

fn take_u64(b: &[u8], pos: usize) -> (r: Option<(u64, usize)>)
    requires
        pos <= b@.len(),
    ensures
        match r {
            Some(p) => read_u64(b@.skip(pos as int)) == Some((p.0, b@.skip(p.1 as int))) && pos
                < p.1 <= b@.len(),
            None => read_u64(b@.skip(pos as int)) is None,
        },
{
    if b.len() - pos >= 8 {
        let sl = slice_subrange(b, pos, pos + 8);
        let x = u64_from_le_bytes(sl);
        proof {
            assert(b@.skip(pos as int).take(8) =~= b@.subrange(pos as int, pos as int + 8));
            assert(b@.skip(pos as int).skip(8) =~= b@.skip(pos as int + 8));
        }
        Some((x, pos + 8))
    } else {
        None
    }
}

fn take_u128(b: &[u8], pos: usize) -> (r: Option<(u128, usize)>)
    requires
        pos <= b@.len(),
    ensures
        match r {
            Some(p) => read_u128(b@.skip(pos as int)) == Some((p.0, b@.skip(p.1 as int))) && pos
                < p.1 <= b@.len(),
            None => read_u128(b@.skip(pos as int)) is None,
        },
{
    if b.len() - pos >= 16 {
        let sl = slice_subrange(b, pos, pos + 16);
        let x = u128_from_le_bytes(sl);
        proof {
            assert(b@.skip(pos as int).take(16) =~= b@.subrange(pos as int, pos as int + 16));
            assert(b@.skip(pos as int).skip(16) =~= b@.skip(pos as int + 16));
        }
        Some((x, pos + 16))
    } else {
        None
    }
}

fn take_str(b: &[u8], pos: usize) -> (r: Option<(String, usize)>)
    requires
        pos <= b@.len(),
    ensures
        match r {
            Some(p) => read_str(b@.skip(pos as int)) == Some((p.0@, b@.skip(p.1 as int))) && pos
                < p.1 <= b@.len(),
            None => read_str(b@.skip(pos as int)) is None,
        },
{
    match take_u64(b, pos) {
        None => None,
        Some((n, p2)) => {
            if n <= (b.len() - p2) as u64 {
                let n_us = n as usize;
                let sl = slice_subrange(b, p2, p2 + n_us);
                let v = slice_to_vec(sl);
                proof {
                    assert(b@.skip(p2 as int).take(n as int) =~= b@.subrange(
                        p2 as int,
                        p2 as int + n as int,
                    ));
                    assert(b@.skip(p2 as int).skip(n as int) =~= b@.skip(p2 as int + n as int));
                }
                match string_from_utf8(v) {
                    None => None,
                    Some(st) => {
                        proof {
                            encode_utf8_decode_utf8(st@);
                        }
                        Some((st, p2 + n_us))
                    },
                }
            } else {
                None
            }
        },
    }
}

fn take_opt_u64(b: &[u8], pos: usize) -> (r: Option<(Option<u64>, usize)>)
    requires
        pos <= b@.len(),
    ensures
        match r {
            Some(p) => read_opt_u64(b@.skip(pos as int)) == Some((p.0, b@.skip(p.1 as int)))
                && pos < p.1 <= b@.len(),
            None => read_opt_u64(b@.skip(pos as int)) is None,
        },
{
    match take_u8(b, pos) {
        None => None,
        Some((t, p)) => {
            if t == 0 {
                Some((None, p))
            } else if t == 1 {
                match take_u64(b, p) {
                    None => None,
                    Some((x, p2)) => Some((Some(x), p2)),
                }
            } else {
                None
            }
        },
    }
}

fn take_opt_str(b: &[u8], pos: usize) -> (r: Option<(Option<String>, usize)>)
    requires
        pos <= b@.len(),
    ensures
        match r {
            Some(p) => ({
                let o = match p.0 {
                    Some(st) => Some(st@),
                    None => None,
                };
                read_opt_str(b@.skip(pos as int)) == Some((o, b@.skip(p.1 as int))) && pos < p.1
                    <= b@.len()
            }),
            None => read_opt_str(b@.skip(pos as int)) is None,
        },
{
    match take_u8(b, pos) {
        None => None,
        Some((t, p)) => {
            if t == 0 {
                Some((None, p))
            } else if t == 1 {
                match take_str(b, p) {
                    None => None,
                    Some((st, p2)) => Some((Some(st), p2)),
                }
            } else {
                None
            }
        },
    }
}

/// Decodes one event from its canonical wire form; `None` on any input that
/// is not exactly one well-formed encoding.
pub fn decode(b: &[u8]) -> (r: Option<OrderEvent>)
    ensures
        match r {
            Some(ev) => spec_decode(b@) == Some(ev@),
            None => spec_decode(b@) is None,
        },
{
    proof {
        assert(b@.skip(0) =~= b@);
    }
    let (trader, pos) = match take_str(b, 0) {
        Some(p) => p,
        None => {
            return None;
        },
    };
    let (strategy, pos) = match take_str(b, pos) {
        Some(p) => p,
        None => {
            return None;
        },
    };
    let (instrument, pos) = match take_str(b, pos) {
        Some(p) => p,
        None => {
            return None;
        },
    };
    let (client, pos) = match take_str(b, pos) {
        Some(p) => p,
        None => {
            return None;
        },
    };
    let (event_id, pos) = match take_u128(b, pos) {
        Some(p) => p,
        None => {
            return None;
        },
    };
    let (ts_event, pos) = match take_u64(b, pos) {
        Some(p) => p,
        None => {
            return None;
        },
    };
    let (ts_init, pos) = match take_u64(b, pos) {
        Some(p) => p,
        None => {
            return None;
        },
    };
    let (reconciliation, pos) = match take_bool(b, pos) {
        Some(p) => p,
        None => {
            return None;
        },
    };
    let (venue, pos) = match take_opt_str(b, pos) {
        Some(p) => p,
        None => {
            return None;
        },
    };
    let (account, pos) = match take_opt_str(b, pos) {
        Some(p) => p,
        None => {
            return None;
        },
    };
    let (tag, pos) = match take_u8(b, pos) {
        Some(p) => p,
        None => {
            return None;
        },
    };
    let (body, pos) = match decode_body(b, tag, pos) {
        Some(p) => p,
        None => {
            return None;
        },
    };
    if pos != b.len() {
        return None;
    }
    let ev = OrderEvent {
        header: EventHeader {
            trader_id: TraderId::from_raw(trader),
            strategy_id: StrategyId::from_raw(strategy),
            instrument_id: InstrumentId::from_raw(instrument),
            client_order_id: ClientOrderId::from_raw(client),
            event_id: UUID4::new(event_id),
            ts_event,
            ts_init,
            reconciliation,
            venue_order_id: match venue {
                Some(v) => Some(VenueOrderId::from_raw(v)),
                None => None,
            },
            account_id: match account {
                Some(a) => Some(AccountId::from_raw(a)),
                None => None,
            },
        },
        body,
    };
    proof {
        assert(spec_decode(b@) matches Some(v) && v =~= ev@);
    }
    Some(ev)
}

/// Decodes the variant payload for `tag`, starting at `pos`.
fn decode_body(b: &[u8], tag: u8, pos: usize) -> (r: Option<(EventBody, usize)>)
    requires
        pos <= b@.len(),
    ensures
        match r {
            Some(p) => read_body(tag, b@.skip(pos as int)) == Some((p.0@, b@.skip(p.1 as int)))
                && pos <= p.1 <= b@.len(),
            None => read_body(tag, b@.skip(pos as int)) is None,
        },
{
    if tag == 0 {
        let (t1, pos) = match take_u8(b, pos) {
            Some(p) => p,
            None => {
                return None;
            },
        };
        let order_side = if t1 == 0 {
            OrderSide::Buy
        } else if t1 == 1 {
            OrderSide::Sell
        } else {
            return None;
        };
        let (t2, pos) = match take_u8(b, pos) {
            Some(p) => p,
            None => {
                return None;
            },
        };
        let order_type = if t2 == 0 {
            OrderType::Market
        } else if t2 == 1 {
            OrderType::Limit
        } else if t2 == 2 {
            OrderType::StopMarket
        } else if t2 == 3 {
            OrderType::StopLimit
        } else {
            return None;
        };
        let (quantity, pos) = match take_u64(b, pos) {
            Some(p) => p,
            None => {
                return None;
            },
        };
        let (t3, pos) = match take_u8(b, pos) {
            Some(p) => p,
            None => {
                return None;
            },
        };
        let time_in_force = if t3 == 0 {
            TimeInForce::Gtc
        } else if t3 == 1 {
            TimeInForce::Ioc
        } else if t3 == 2 {
            TimeInForce::Fok
        } else if t3 == 3 {
            TimeInForce::Gtd
        } else if t3 == 4 {
            TimeInForce::Day
        } else {
            return None;
        };
        let (post_only, pos) = match take_bool(b, pos) {
            Some(p) => p,
            None => {
                return None;
            },
        };
        let (reduce_only, pos) = match take_bool(b, pos) {
            Some(p) => p,
            None => {
                return None;
            },
        };
        Some(
            (
                EventBody::Initialized {
                    order_side,
                    order_type,
                    quantity,
                    time_in_force,
                    post_only,
                    reduce_only,
                },
                pos,
            ),
        )
    } else if tag == 1 {
        match take_str(b, pos) {
            Some((reason, pos)) => Some((EventBody::Denied { reason }, pos)),
            None => None,
        }
    } else if tag == 2 {
        Some((EventBody::Submitted, pos))
    } else if tag == 3 {
        Some((EventBody::Accepted, pos))
    } else if tag == 4 {
        match take_str(b, pos) {
            Some((reason, pos)) => Some((EventBody::Rejected { reason }, pos)),
            None => None,
        }
    } else if tag == 5 {
        Some((EventBody::Canceled, pos))
    } else if tag == 6 {
        match take_opt_u64(b, pos) {
            Some((expire_time, pos)) => Some((EventBody::Expired { expire_time }, pos)),
            None => None,
        }
    } else if tag == 7 {
        Some((EventBody::Triggered, pos))
    } else if tag == 8 {
        Some((EventBody::PendingUpdate, pos))
    } else if tag == 9 {
        Some((EventBody::PendingCancel, pos))
    } else if tag == 10 {
        match take_str(b, pos) {
            Some((reason, pos)) => Some((EventBody::ModifyRejected { reason }, pos)),
            None => None,
        }
    } else if tag == 11 {
        match take_str(b, pos) {
            Some((reason, pos)) => Some((EventBody::CancelRejected { reason }, pos)),
            None => None,
        }
    } else if tag == 12 {
        let (quantity, pos) = match take_opt_u64(b, pos) {
            Some(p) => p,
            None => {
                return None;
            },
        };
        let (price, pos) = match take_opt_u64(b, pos) {
            Some(p) => p,
            None => {
                return None;
            },
        };
        let (trigger_price, pos) = match take_opt_u64(b, pos) {
            Some(p) => p,
            None => {
                return None;
            },
        };
        Some((EventBody::Updated { quantity, price, trigger_price }, pos))
    } else if tag == 13 {
        let (last_qty, pos) = match take_u64(b, pos) {
            Some(p) => p,
            None => {
                return None;
            },
        };
        let (last_px, pos) = match take_u64(b, pos) {
            Some(p) => p,
            None => {
                return None;
            },
        };
        let (t1, pos) = match take_u8(b, pos) {
            Some(p) => p,
            None => {
                return None;
            },
        };
        let liquidity_side = if t1 == 0 {
            LiquiditySide::Maker
        } else if t1 == 1 {
            LiquiditySide::Taker
        } else {
            return None;
        };
        let (commission, pos) = match take_u64(b, pos) {
            Some(p) => p,
            None => {
                return None;
            },
        };
        Some((EventBody::Filled { last_qty, last_px, liquidity_side, commission }, pos))
    } else {
        None
    }
}

} // verus!
