//! The Spot SBE schema as data: the widths of the fields of each decoded
//! block and entry, in schema order, and the wire values of each enumeration.
//! The laws here tie the decoders to that description: every field is read
//! at the offset its predecessors' widths give, and enumeration bytes decode
//! to the values the schema assigns them.

use vstd::prelude::*;

use super::{
    models::{
        BinanceAccountInfo, BinanceAccountTrade, BinanceBalance, BinanceCancelOrderResponse,
        BinanceNewOrderResponse, BinanceOrderFill, BinanceOrderResponse, BinancePriceLevel,
        BinanceTrade,
    },
    parse::{
        account_fields, account_trade_at, balance_at, cancel_order_fields, fill_at, level_at,
        new_order_full_fields, order_fields, orders_item_at, trade_at,
    },
};
use crate::binance::common::sbe::{
    cursor::{byte_i8, le_i64, le_u16, le_u32, le_u64, opt_i64},
    spot::{
        AccountType, BoolEnum, OrderSide, OrderStatus, OrderType, SelfTradePreventionMode, TimeInForce,
    },
};

verus! {

/// The offset of field `i` of a block whose fields have the widths `widths`,
/// in schema order: the sum of the widths before it.
pub open spec fn field_offset(widths: Seq<int>, i: nat) -> int
    decreases i,
{
    if i == 0 {
        0
    } else {
        field_offset(widths, (i - 1) as nat) + widths[i - 1]
    }
}

/// The unsigned little-endian value of the `n` bytes at `p`: the first byte
/// is the least significant.
pub open spec fn le_value(s: Seq<u8>, p: int, n: nat) -> int
    decreases n,
{
    if n == 0 {
        0
    } else {
        s[p] + 256 * le_value(s, p + 1, (n - 1) as nat)
    }
}

/// The integers read by the cursor are little-endian: 2, 4 and 8 bytes with
/// the first byte least significant, and a signed 64-bit value is the 8-byte
/// value taken in two's complement.
pub proof fn lemma_little_endian(s: Seq<u8>, p: int)
    ensures
        le_u16(s, p) == le_value(s, p, 2),
        le_u32(s, p) == le_value(s, p, 4),
        le_u64(s, p) == le_value(s, p, 8),
        le_i64(s, p) == (if le_value(s, p, 8) < 0x8000_0000_0000_0000 {
            le_value(s, p, 8)
        } else {
            le_value(s, p, 8) - 0x1_0000_0000_0000_0000
        }),
{
    reveal_with_fuel(le_value, 9);
}

/// The widths, in schema order, of the fields of an order book level entry:
/// price_mantissa, qty_mantissa.
pub open spec fn level_widths() -> Seq<int> {
    seq![8, 8]
}

/// Each field of an order book level entry is read at the offset that the widths of the
/// fields before it give, in schema order.
pub proof fn lemma_level_layout(s: Seq<u8>, q: int, v: BinancePriceLevel)
    requires
        level_at(s, q, v),
    ensures
        v.price_mantissa == le_i64(s, q + field_offset(level_widths(), 0)),
        v.qty_mantissa == le_i64(s, q + field_offset(level_widths(), 1)),
{
    reveal_with_fuel(field_offset, 23);
    assert(field_offset(level_widths(), 0) == 0);
    assert(field_offset(level_widths(), 1) == 8);
}

/// The widths, in schema order, of the fields of a trade entry:
/// id, price_mantissa, qty_mantissa, quote_qty_mantissa, time, is_buyer_maker, is_best_match.
pub open spec fn trade_widths() -> Seq<int> {
    seq![8, 8, 8, 8, 8, 1, 1]
}

/// Each field of a trade entry is read at the offset that the widths of the
/// fields before it give, in schema order.
pub proof fn lemma_trade_layout(s: Seq<u8>, q: int, t: BinanceTrade)
    requires
        trade_at(s, q, t),
    ensures
        t.id == le_i64(s, q + field_offset(trade_widths(), 0)),
        t.price_mantissa == le_i64(s, q + field_offset(trade_widths(), 1)),
        t.qty_mantissa == le_i64(s, q + field_offset(trade_widths(), 2)),
        t.quote_qty_mantissa == le_i64(s, q + field_offset(trade_widths(), 3)),
        t.time == le_i64(s, q + field_offset(trade_widths(), 4)),
        t.is_buyer_maker == (s[q + field_offset(trade_widths(), 5)] == 1),
        t.is_best_match == (s[q + field_offset(trade_widths(), 6)] == 1),
{
    reveal_with_fuel(field_offset, 23);
    assert(field_offset(trade_widths(), 0) == 0);
    assert(field_offset(trade_widths(), 1) == 8);
    assert(field_offset(trade_widths(), 2) == 16);
    assert(field_offset(trade_widths(), 3) == 24);
    assert(field_offset(trade_widths(), 4) == 32);
    assert(field_offset(trade_widths(), 5) == 40);
    assert(field_offset(trade_widths(), 6) == 41);
}

/// The widths, in schema order, of the fields of an order fill entry:
/// commission_exponent, (not decoded), price_mantissa, qty_mantissa, commission_mantissa, trade_id.
pub open spec fn fill_widths() -> Seq<int> {
    seq![1, 1, 8, 8, 8, 8]
}

/// Each field of an order fill entry is read at the offset that the widths of the
/// fields before it give, in schema order.
pub proof fn lemma_fill_layout(s: Seq<u8>, q: int, f: BinanceOrderFill)
    requires
        fill_at(s, q, f),
    ensures
        f.commission_exponent == byte_i8(s, q + field_offset(fill_widths(), 0)),
        f.price_mantissa == le_i64(s, q + field_offset(fill_widths(), 2)),
        f.qty_mantissa == le_i64(s, q + field_offset(fill_widths(), 3)),
        f.commission_mantissa == le_i64(s, q + field_offset(fill_widths(), 4)),
        f.trade_id == opt_i64(s, q + field_offset(fill_widths(), 5)),
{
    reveal_with_fuel(field_offset, 23);
    assert(field_offset(fill_widths(), 0) == 0);
    assert(field_offset(fill_widths(), 2) == 2);
    assert(field_offset(fill_widths(), 3) == 10);
    assert(field_offset(fill_widths(), 4) == 18);
    assert(field_offset(fill_widths(), 5) == 26);
}

/// The widths, in schema order, of the fields of the fixed block of a new order full response:
/// price_exponent, qty_exponent, order_id, order_list_id, transact_time, price_mantissa, orig_qty_mantissa, executed_qty_mantissa, cummulative_quote_qty_mantissa, status, time_in_force, order_type, side, stop_price_mantissa, (not decoded), working_time, (not decoded), self_trade_prevention_mode.
pub open spec fn new_order_widths() -> Seq<int> {
    seq![1, 1, 8, 8, 8, 8, 8, 8, 8, 1, 1, 1, 1, 8, 16, 8, 23, 1]
}

/// Each field of the fixed block of a new order full response is read at the offset that the widths of the
/// fields before it give, in schema order.
pub proof fn lemma_new_order_layout(s: Seq<u8>, o: BinanceNewOrderResponse)
    requires
        new_order_full_fields(s, o),
    ensures
        o.price_exponent == byte_i8(s, 8 + field_offset(new_order_widths(), 0)),
        o.qty_exponent == byte_i8(s, 8 + field_offset(new_order_widths(), 1)),
        o.order_id == le_i64(s, 8 + field_offset(new_order_widths(), 2)),
        o.order_list_id == opt_i64(s, 8 + field_offset(new_order_widths(), 3)),
        o.transact_time == le_i64(s, 8 + field_offset(new_order_widths(), 4)),
        o.price_mantissa == le_i64(s, 8 + field_offset(new_order_widths(), 5)),
        o.orig_qty_mantissa == le_i64(s, 8 + field_offset(new_order_widths(), 6)),
        o.executed_qty_mantissa == le_i64(s, 8 + field_offset(new_order_widths(), 7)),
        o.cummulative_quote_qty_mantissa == le_i64(s, 8 + field_offset(new_order_widths(), 8)),
        o.status == OrderStatus::spec_from_u8(s[8 + field_offset(new_order_widths(), 9)]),
        o.time_in_force == TimeInForce::spec_from_u8(s[8 + field_offset(new_order_widths(), 10)]),
        o.order_type == OrderType::spec_from_u8(s[8 + field_offset(new_order_widths(), 11)]),
        o.side == OrderSide::spec_from_u8(s[8 + field_offset(new_order_widths(), 12)]),
        o.stop_price_mantissa == opt_i64(s, 8 + field_offset(new_order_widths(), 13)),
        o.working_time == opt_i64(s, 8 + field_offset(new_order_widths(), 15)),
        o.self_trade_prevention_mode == SelfTradePreventionMode::spec_from_u8(s[8 + field_offset(new_order_widths(), 17)]),
{
    reveal_with_fuel(field_offset, 23);
    assert(field_offset(new_order_widths(), 0) == 0);
    assert(field_offset(new_order_widths(), 1) == 1);
    assert(field_offset(new_order_widths(), 2) == 2);
    assert(field_offset(new_order_widths(), 3) == 10);
    assert(field_offset(new_order_widths(), 4) == 18);
    assert(field_offset(new_order_widths(), 5) == 26);
    assert(field_offset(new_order_widths(), 6) == 34);
    assert(field_offset(new_order_widths(), 7) == 42);
    assert(field_offset(new_order_widths(), 8) == 50);
    assert(field_offset(new_order_widths(), 9) == 58);
    assert(field_offset(new_order_widths(), 10) == 59);
    assert(field_offset(new_order_widths(), 11) == 60);
    assert(field_offset(new_order_widths(), 12) == 61);
    assert(field_offset(new_order_widths(), 13) == 62);
    assert(field_offset(new_order_widths(), 15) == 86);
    assert(field_offset(new_order_widths(), 17) == 117);
}

/// The widths, in schema order, of the fields of the fixed block of a cancel order response:
/// price_exponent, qty_exponent, order_id, order_list_id, transact_time, price_mantissa, orig_qty_mantissa, executed_qty_mantissa, cummulative_quote_qty_mantissa, status, time_in_force, order_type, side, self_trade_prevention_mode.
pub open spec fn cancel_order_widths() -> Seq<int> {
    seq![1, 1, 8, 8, 8, 8, 8, 8, 8, 1, 1, 1, 1, 1]
}

/// Each field of the fixed block of a cancel order response is read at the offset that the widths of the
/// fields before it give, in schema order.
pub proof fn lemma_cancel_order_layout(s: Seq<u8>, c: BinanceCancelOrderResponse)
    requires
        cancel_order_fields(s, c),
    ensures
        c.price_exponent == byte_i8(s, 8 + field_offset(cancel_order_widths(), 0)),
        c.qty_exponent == byte_i8(s, 8 + field_offset(cancel_order_widths(), 1)),
        c.order_id == le_i64(s, 8 + field_offset(cancel_order_widths(), 2)),
        c.order_list_id == opt_i64(s, 8 + field_offset(cancel_order_widths(), 3)),
        c.transact_time == le_i64(s, 8 + field_offset(cancel_order_widths(), 4)),
        c.price_mantissa == le_i64(s, 8 + field_offset(cancel_order_widths(), 5)),
        c.orig_qty_mantissa == le_i64(s, 8 + field_offset(cancel_order_widths(), 6)),
        c.executed_qty_mantissa == le_i64(s, 8 + field_offset(cancel_order_widths(), 7)),
        c.cummulative_quote_qty_mantissa == le_i64(s, 8 + field_offset(cancel_order_widths(), 8)),
        c.status == OrderStatus::spec_from_u8(s[8 + field_offset(cancel_order_widths(), 9)]),
        c.time_in_force == TimeInForce::spec_from_u8(s[8 + field_offset(cancel_order_widths(), 10)]),
        c.order_type == OrderType::spec_from_u8(s[8 + field_offset(cancel_order_widths(), 11)]),
        c.side == OrderSide::spec_from_u8(s[8 + field_offset(cancel_order_widths(), 12)]),
        c.self_trade_prevention_mode == SelfTradePreventionMode::spec_from_u8(s[8 + field_offset(cancel_order_widths(), 13)]),
{
    reveal_with_fuel(field_offset, 23);
    assert(field_offset(cancel_order_widths(), 0) == 0);
    assert(field_offset(cancel_order_widths(), 1) == 1);
    assert(field_offset(cancel_order_widths(), 2) == 2);
    assert(field_offset(cancel_order_widths(), 3) == 10);
    assert(field_offset(cancel_order_widths(), 4) == 18);
    assert(field_offset(cancel_order_widths(), 5) == 26);
    assert(field_offset(cancel_order_widths(), 6) == 34);
    assert(field_offset(cancel_order_widths(), 7) == 42);
    assert(field_offset(cancel_order_widths(), 8) == 50);
    assert(field_offset(cancel_order_widths(), 9) == 58);
    assert(field_offset(cancel_order_widths(), 10) == 59);
    assert(field_offset(cancel_order_widths(), 11) == 60);
    assert(field_offset(cancel_order_widths(), 12) == 61);
    assert(field_offset(cancel_order_widths(), 13) == 62);
}

/// The widths, in schema order, of the fields of the fixed block of an order response:
/// price_exponent, qty_exponent, order_id, order_list_id, price_mantissa, orig_qty_mantissa, executed_qty_mantissa, cummulative_quote_qty_mantissa, status, time_in_force, order_type, side, stop_price_mantissa, iceberg_qty_mantissa, time, update_time, is_working, working_time, orig_quote_order_qty_mantissa, self_trade_prevention_mode.
pub open spec fn order_widths() -> Seq<int> {
    seq![1, 1, 8, 8, 8, 8, 8, 8, 1, 1, 1, 1, 8, 8, 8, 8, 1, 8, 8, 1]
}

/// Each field of the fixed block of an order response is read at the offset that the widths of the
/// fields before it give, in schema order.
pub proof fn lemma_order_layout(s: Seq<u8>, o: BinanceOrderResponse)
    requires
        order_fields(s, o),
    ensures
        o.price_exponent == byte_i8(s, 8 + field_offset(order_widths(), 0)),
        o.qty_exponent == byte_i8(s, 8 + field_offset(order_widths(), 1)),
        o.order_id == le_i64(s, 8 + field_offset(order_widths(), 2)),
        o.order_list_id == opt_i64(s, 8 + field_offset(order_widths(), 3)),
        o.price_mantissa == le_i64(s, 8 + field_offset(order_widths(), 4)),
        o.orig_qty_mantissa == le_i64(s, 8 + field_offset(order_widths(), 5)),
        o.executed_qty_mantissa == le_i64(s, 8 + field_offset(order_widths(), 6)),
        o.cummulative_quote_qty_mantissa == le_i64(s, 8 + field_offset(order_widths(), 7)),
        o.status == OrderStatus::spec_from_u8(s[8 + field_offset(order_widths(), 8)]),
        o.time_in_force == TimeInForce::spec_from_u8(s[8 + field_offset(order_widths(), 9)]),
        o.order_type == OrderType::spec_from_u8(s[8 + field_offset(order_widths(), 10)]),
        o.side == OrderSide::spec_from_u8(s[8 + field_offset(order_widths(), 11)]),
        o.stop_price_mantissa == opt_i64(s, 8 + field_offset(order_widths(), 12)),
        o.iceberg_qty_mantissa == opt_i64(s, 8 + field_offset(order_widths(), 13)),
        o.time == le_i64(s, 8 + field_offset(order_widths(), 14)),
        o.update_time == le_i64(s, 8 + field_offset(order_widths(), 15)),
        o.is_working == (s[8 + field_offset(order_widths(), 16)] == 1),
        o.working_time == opt_i64(s, 8 + field_offset(order_widths(), 17)),
        o.orig_quote_order_qty_mantissa == le_i64(s, 8 + field_offset(order_widths(), 18)),
        o.self_trade_prevention_mode == SelfTradePreventionMode::spec_from_u8(s[8 + field_offset(order_widths(), 19)]),
{
    reveal_with_fuel(field_offset, 23);
    assert(field_offset(order_widths(), 0) == 0);
    assert(field_offset(order_widths(), 1) == 1);
    assert(field_offset(order_widths(), 2) == 2);
    assert(field_offset(order_widths(), 3) == 10);
    assert(field_offset(order_widths(), 4) == 18);
    assert(field_offset(order_widths(), 5) == 26);
    assert(field_offset(order_widths(), 6) == 34);
    assert(field_offset(order_widths(), 7) == 42);
    assert(field_offset(order_widths(), 8) == 50);
    assert(field_offset(order_widths(), 9) == 51);
    assert(field_offset(order_widths(), 10) == 52);
    assert(field_offset(order_widths(), 11) == 53);
    assert(field_offset(order_widths(), 12) == 54);
    assert(field_offset(order_widths(), 13) == 62);
    assert(field_offset(order_widths(), 14) == 70);
    assert(field_offset(order_widths(), 15) == 78);
    assert(field_offset(order_widths(), 16) == 86);
    assert(field_offset(order_widths(), 17) == 87);
    assert(field_offset(order_widths(), 18) == 95);
    assert(field_offset(order_widths(), 19) == 103);
}

/// The widths, in schema order, of the fields of an entry of an orders response:
/// price_exponent, qty_exponent, order_id, order_list_id, price_mantissa, orig_qty_mantissa, executed_qty_mantissa, cummulative_quote_qty_mantissa, status, time_in_force, order_type, side, stop_price_mantissa, (not decoded), iceberg_qty_mantissa, time, update_time, is_working, working_time, orig_quote_order_qty_mantissa, (not decoded), self_trade_prevention_mode.
pub open spec fn orders_item_widths() -> Seq<int> {
    seq![1, 1, 8, 8, 8, 8, 8, 8, 1, 1, 1, 1, 8, 16, 8, 8, 8, 1, 8, 8, 14, 1]
}

/// Each field of an entry of an orders response is read at the offset that the widths of the
/// fields before it give, in schema order.
pub proof fn lemma_orders_item_layout(s: Seq<u8>, q: int, o: BinanceOrderResponse)
    requires
        orders_item_at(s, q, o),
    ensures
        o.price_exponent == byte_i8(s, q + field_offset(orders_item_widths(), 0)),
        o.qty_exponent == byte_i8(s, q + field_offset(orders_item_widths(), 1)),
        o.order_id == le_i64(s, q + field_offset(orders_item_widths(), 2)),
        o.order_list_id == opt_i64(s, q + field_offset(orders_item_widths(), 3)),
        o.price_mantissa == le_i64(s, q + field_offset(orders_item_widths(), 4)),
        o.orig_qty_mantissa == le_i64(s, q + field_offset(orders_item_widths(), 5)),
        o.executed_qty_mantissa == le_i64(s, q + field_offset(orders_item_widths(), 6)),
        o.cummulative_quote_qty_mantissa == le_i64(s, q + field_offset(orders_item_widths(), 7)),
        o.status == OrderStatus::spec_from_u8(s[q + field_offset(orders_item_widths(), 8)]),
        o.time_in_force == TimeInForce::spec_from_u8(s[q + field_offset(orders_item_widths(), 9)]),
        o.order_type == OrderType::spec_from_u8(s[q + field_offset(orders_item_widths(), 10)]),
        o.side == OrderSide::spec_from_u8(s[q + field_offset(orders_item_widths(), 11)]),
        o.stop_price_mantissa == opt_i64(s, q + field_offset(orders_item_widths(), 12)),
        o.iceberg_qty_mantissa == opt_i64(s, q + field_offset(orders_item_widths(), 14)),
        o.time == le_i64(s, q + field_offset(orders_item_widths(), 15)),
        o.update_time == le_i64(s, q + field_offset(orders_item_widths(), 16)),
        o.is_working == (s[q + field_offset(orders_item_widths(), 17)] == 1),
        o.working_time == opt_i64(s, q + field_offset(orders_item_widths(), 18)),
        o.orig_quote_order_qty_mantissa == le_i64(s, q + field_offset(orders_item_widths(), 19)),
        o.self_trade_prevention_mode == SelfTradePreventionMode::spec_from_u8(s[q + field_offset(orders_item_widths(), 21)]),
{
    reveal_with_fuel(field_offset, 23);
    assert(field_offset(orders_item_widths(), 0) == 0);
    assert(field_offset(orders_item_widths(), 1) == 1);
    assert(field_offset(orders_item_widths(), 2) == 2);
    assert(field_offset(orders_item_widths(), 3) == 10);
    assert(field_offset(orders_item_widths(), 4) == 18);
    assert(field_offset(orders_item_widths(), 5) == 26);
    assert(field_offset(orders_item_widths(), 6) == 34);
    assert(field_offset(orders_item_widths(), 7) == 42);
    assert(field_offset(orders_item_widths(), 8) == 50);
    assert(field_offset(orders_item_widths(), 9) == 51);
    assert(field_offset(orders_item_widths(), 10) == 52);
    assert(field_offset(orders_item_widths(), 11) == 53);
    assert(field_offset(orders_item_widths(), 12) == 54);
    assert(field_offset(orders_item_widths(), 14) == 78);
    assert(field_offset(orders_item_widths(), 15) == 86);
    assert(field_offset(orders_item_widths(), 16) == 94);
    assert(field_offset(orders_item_widths(), 17) == 102);
    assert(field_offset(orders_item_widths(), 18) == 103);
    assert(field_offset(orders_item_widths(), 19) == 111);
    assert(field_offset(orders_item_widths(), 21) == 133);
}

/// The widths, in schema order, of the fields of a balance entry:
/// exponent, free_mantissa, locked_mantissa.
pub open spec fn balance_widths() -> Seq<int> {
    seq![1, 8, 8]
}

/// Each field of a balance entry is read at the offset that the widths of the
/// fields before it give, in schema order.
pub proof fn lemma_balance_layout(s: Seq<u8>, q: int, b: BinanceBalance)
    requires
        balance_at(s, q, b),
    ensures
        b.exponent == byte_i8(s, q + field_offset(balance_widths(), 0)),
        b.free_mantissa == le_i64(s, q + field_offset(balance_widths(), 1)),
        b.locked_mantissa == le_i64(s, q + field_offset(balance_widths(), 2)),
{
    reveal_with_fuel(field_offset, 23);
    assert(field_offset(balance_widths(), 0) == 0);
    assert(field_offset(balance_widths(), 1) == 1);
    assert(field_offset(balance_widths(), 2) == 9);
}

/// The widths, in schema order, of the fields of the fixed block of an account response:
/// commission_exponent, maker_commission_mantissa, taker_commission_mantissa, buyer_commission_mantissa, seller_commission_mantissa, can_trade, can_withdraw, can_deposit, (not decoded), require_self_trade_prevention, prevent_sor, update_time, account_type.
pub open spec fn account_widths() -> Seq<int> {
    seq![1, 8, 8, 8, 8, 1, 1, 1, 1, 1, 1, 8, 1]
}

/// Each field of the fixed block of an account response is read at the offset that the widths of the
/// fields before it give, in schema order.
pub proof fn lemma_account_layout(s: Seq<u8>, a: BinanceAccountInfo)
    requires
        account_fields(s, a),
    ensures
        a.commission_exponent == byte_i8(s, 8 + field_offset(account_widths(), 0)),
        a.maker_commission_mantissa == le_i64(s, 8 + field_offset(account_widths(), 1)),
        a.taker_commission_mantissa == le_i64(s, 8 + field_offset(account_widths(), 2)),
        a.buyer_commission_mantissa == le_i64(s, 8 + field_offset(account_widths(), 3)),
        a.seller_commission_mantissa == le_i64(s, 8 + field_offset(account_widths(), 4)),
        a.can_trade == (s[8 + field_offset(account_widths(), 5)] == 1),
        a.can_withdraw == (s[8 + field_offset(account_widths(), 6)] == 1),
        a.can_deposit == (s[8 + field_offset(account_widths(), 7)] == 1),
        a.require_self_trade_prevention == (s[8 + field_offset(account_widths(), 9)] == 1),
        a.prevent_sor == (s[8 + field_offset(account_widths(), 10)] == 1),
        a.update_time == le_i64(s, 8 + field_offset(account_widths(), 11)),
        a.account_type@ == AccountType::spec_from_u8(s[8 + field_offset(account_widths(), 12)]).spec_name(),
{
    reveal_with_fuel(field_offset, 23);
    assert(field_offset(account_widths(), 0) == 0);
    assert(field_offset(account_widths(), 1) == 1);
    assert(field_offset(account_widths(), 2) == 9);
    assert(field_offset(account_widths(), 3) == 17);
    assert(field_offset(account_widths(), 4) == 25);
    assert(field_offset(account_widths(), 5) == 33);
    assert(field_offset(account_widths(), 6) == 34);
    assert(field_offset(account_widths(), 7) == 35);
    assert(field_offset(account_widths(), 9) == 37);
    assert(field_offset(account_widths(), 10) == 38);
    assert(field_offset(account_widths(), 11) == 39);
    assert(field_offset(account_widths(), 12) == 47);
}

/// The widths, in schema order, of the fields of an account trade entry:
/// price_exponent, qty_exponent, commission_exponent, id, order_id, order_list_id, price_mantissa, qty_mantissa, quote_qty_mantissa, commission_mantissa, time, is_buyer, is_maker, is_best_match.
pub open spec fn account_trade_widths() -> Seq<int> {
    seq![1, 1, 1, 8, 8, 8, 8, 8, 8, 8, 8, 1, 1, 1]
}

/// Each field of an account trade entry is read at the offset that the widths of the
/// fields before it give, in schema order.
pub proof fn lemma_account_trade_layout(s: Seq<u8>, q: int, t: BinanceAccountTrade)
    requires
        account_trade_at(s, q, t),
    ensures
        t.price_exponent == byte_i8(s, q + field_offset(account_trade_widths(), 0)),
        t.qty_exponent == byte_i8(s, q + field_offset(account_trade_widths(), 1)),
        t.commission_exponent == byte_i8(s, q + field_offset(account_trade_widths(), 2)),
        t.id == le_i64(s, q + field_offset(account_trade_widths(), 3)),
        t.order_id == le_i64(s, q + field_offset(account_trade_widths(), 4)),
        t.order_list_id == opt_i64(s, q + field_offset(account_trade_widths(), 5)),
        t.price_mantissa == le_i64(s, q + field_offset(account_trade_widths(), 6)),
        t.qty_mantissa == le_i64(s, q + field_offset(account_trade_widths(), 7)),
        t.quote_qty_mantissa == le_i64(s, q + field_offset(account_trade_widths(), 8)),
        t.commission_mantissa == le_i64(s, q + field_offset(account_trade_widths(), 9)),
        t.time == le_i64(s, q + field_offset(account_trade_widths(), 10)),
        t.is_buyer == (s[q + field_offset(account_trade_widths(), 11)] == 1),
        t.is_maker == (s[q + field_offset(account_trade_widths(), 12)] == 1),
        t.is_best_match == (s[q + field_offset(account_trade_widths(), 13)] == 1),
{
    reveal_with_fuel(field_offset, 23);
    assert(field_offset(account_trade_widths(), 0) == 0);
    assert(field_offset(account_trade_widths(), 1) == 1);
    assert(field_offset(account_trade_widths(), 2) == 2);
    assert(field_offset(account_trade_widths(), 3) == 3);
    assert(field_offset(account_trade_widths(), 4) == 11);
    assert(field_offset(account_trade_widths(), 5) == 19);
    assert(field_offset(account_trade_widths(), 6) == 27);
    assert(field_offset(account_trade_widths(), 7) == 35);
    assert(field_offset(account_trade_widths(), 8) == 43);
    assert(field_offset(account_trade_widths(), 9) == 51);
    assert(field_offset(account_trade_widths(), 10) == 59);
    assert(field_offset(account_trade_widths(), 11) == 67);
    assert(field_offset(account_trade_widths(), 12) == 68);
    assert(field_offset(account_trade_widths(), 13) == 69);
}

/// The schema's wire value of each `BoolEnum` value; the null value has none.
pub open spec fn bool_enum_wire_value(t: BoolEnum) -> Option<u8> {
    match t {
        BoolEnum::False => Some(0u8),
        BoolEnum::True => Some(1u8),
        BoolEnum::NonRepresentable => Some(254u8),
        BoolEnum::NullVal => None,
    }
}

/// `BoolEnum` decoding inverts the schema's encoding: every value with a wire
/// value decodes from it, and every byte that does not decode to the null
/// value is the wire value of what it decodes to.
pub proof fn lemma_bool_enum_wire_round_trip(t: BoolEnum, v: u8)
    ensures
        bool_enum_wire_value(t) matches Some(w) ==> BoolEnum::spec_from_u8(w) == t,
        BoolEnum::spec_from_u8(v) != BoolEnum::NullVal ==> bool_enum_wire_value(BoolEnum::spec_from_u8(v)) == Some(v),
{
}

/// The schema's wire value of each `OrderSide` value; the null value has none.
pub open spec fn order_side_wire_value(t: OrderSide) -> Option<u8> {
    match t {
        OrderSide::Buy => Some(0u8),
        OrderSide::Sell => Some(1u8),
        OrderSide::NonRepresentable => Some(254u8),
        OrderSide::NullVal => None,
    }
}

/// `OrderSide` decoding inverts the schema's encoding: every value with a wire
/// value decodes from it, and every byte that does not decode to the null
/// value is the wire value of what it decodes to.
pub proof fn lemma_order_side_wire_round_trip(t: OrderSide, v: u8)
    ensures
        order_side_wire_value(t) matches Some(w) ==> OrderSide::spec_from_u8(w) == t,
        OrderSide::spec_from_u8(v) != OrderSide::NullVal ==> order_side_wire_value(OrderSide::spec_from_u8(v)) == Some(v),
{
}

/// The schema's wire value of each `OrderStatus` value; the null value has none.
pub open spec fn order_status_wire_value(t: OrderStatus) -> Option<u8> {
    match t {
        OrderStatus::New => Some(0u8),
        OrderStatus::PartiallyFilled => Some(1u8),
        OrderStatus::Filled => Some(2u8),
        OrderStatus::Canceled => Some(3u8),
        OrderStatus::PendingCancel => Some(4u8),
        OrderStatus::Rejected => Some(5u8),
        OrderStatus::Expired => Some(6u8),
        OrderStatus::ExpiredInMatch => Some(9u8),
        OrderStatus::PendingNew => Some(11u8),
        OrderStatus::Unknown => Some(253u8),
        OrderStatus::NonRepresentable => Some(254u8),
        OrderStatus::NullVal => None,
    }
}

/// `OrderStatus` decoding inverts the schema's encoding: every value with a wire
/// value decodes from it, and every byte that does not decode to the null
/// value is the wire value of what it decodes to.
pub proof fn lemma_order_status_wire_round_trip(t: OrderStatus, v: u8)
    ensures
        order_status_wire_value(t) matches Some(w) ==> OrderStatus::spec_from_u8(w) == t,
        OrderStatus::spec_from_u8(v) != OrderStatus::NullVal ==> order_status_wire_value(OrderStatus::spec_from_u8(v)) == Some(v),
{
}

/// The schema's wire value of each `OrderType` value; the null value has none.
pub open spec fn order_type_wire_value(t: OrderType) -> Option<u8> {
    match t {
        OrderType::Market => Some(0u8),
        OrderType::Limit => Some(1u8),
        OrderType::StopLoss => Some(2u8),
        OrderType::StopLossLimit => Some(3u8),
        OrderType::TakeProfit => Some(4u8),
        OrderType::TakeProfitLimit => Some(5u8),
        OrderType::LimitMaker => Some(6u8),
        OrderType::NonRepresentable => Some(254u8),
        OrderType::NullVal => None,
    }
}

/// `OrderType` decoding inverts the schema's encoding: every value with a wire
/// value decodes from it, and every byte that does not decode to the null
/// value is the wire value of what it decodes to.
pub proof fn lemma_order_type_wire_round_trip(t: OrderType, v: u8)
    ensures
        order_type_wire_value(t) matches Some(w) ==> OrderType::spec_from_u8(w) == t,
        OrderType::spec_from_u8(v) != OrderType::NullVal ==> order_type_wire_value(OrderType::spec_from_u8(v)) == Some(v),
{
}

/// The schema's wire value of each `TimeInForce` value; the null value has none.
pub open spec fn time_in_force_wire_value(t: TimeInForce) -> Option<u8> {
    match t {
        TimeInForce::Gtc => Some(0u8),
        TimeInForce::Ioc => Some(1u8),
        TimeInForce::Fok => Some(2u8),
        TimeInForce::NonRepresentable => Some(254u8),
        TimeInForce::NullVal => None,
    }
}

/// `TimeInForce` decoding inverts the schema's encoding: every value with a wire
/// value decodes from it, and every byte that does not decode to the null
/// value is the wire value of what it decodes to.
pub proof fn lemma_time_in_force_wire_round_trip(t: TimeInForce, v: u8)
    ensures
        time_in_force_wire_value(t) matches Some(w) ==> TimeInForce::spec_from_u8(w) == t,
        TimeInForce::spec_from_u8(v) != TimeInForce::NullVal ==> time_in_force_wire_value(TimeInForce::spec_from_u8(v)) == Some(v),
{
}

/// The schema's wire value of each `SelfTradePreventionMode` value; the null value has none.
pub open spec fn self_trade_prevention_mode_wire_value(t: SelfTradePreventionMode) -> Option<u8> {
    match t {
        SelfTradePreventionMode::NoPrevention => Some(1u8),
        SelfTradePreventionMode::ExpireTaker => Some(2u8),
        SelfTradePreventionMode::ExpireMaker => Some(3u8),
        SelfTradePreventionMode::ExpireBoth => Some(4u8),
        SelfTradePreventionMode::Decrement => Some(5u8),
        SelfTradePreventionMode::NonRepresentable => Some(254u8),
        SelfTradePreventionMode::NullVal => None,
    }
}

/// `SelfTradePreventionMode` decoding inverts the schema's encoding: every value with a wire
/// value decodes from it, and every byte that does not decode to the null
/// value is the wire value of what it decodes to.
pub proof fn lemma_self_trade_prevention_mode_wire_round_trip(t: SelfTradePreventionMode, v: u8)
    ensures
        self_trade_prevention_mode_wire_value(t) matches Some(w) ==> SelfTradePreventionMode::spec_from_u8(w) == t,
        SelfTradePreventionMode::spec_from_u8(v) != SelfTradePreventionMode::NullVal ==> self_trade_prevention_mode_wire_value(SelfTradePreventionMode::spec_from_u8(v)) == Some(v),
{
}

/// The schema's wire value of each `AccountType` value; the null value has none.
pub open spec fn account_type_wire_value(t: AccountType) -> Option<u8> {
    match t {
        AccountType::Spot => Some(0u8),
        AccountType::NonRepresentable => Some(254u8),
        AccountType::NullVal => None,
    }
}

/// `AccountType` decoding inverts the schema's encoding: every value with a wire
/// value decodes from it, and every byte that does not decode to the null
/// value is the wire value of what it decodes to.
pub proof fn lemma_account_type_wire_round_trip(t: AccountType, v: u8)
    ensures
        account_type_wire_value(t) matches Some(w) ==> AccountType::spec_from_u8(w) == t,
        AccountType::spec_from_u8(v) != AccountType::NullVal ==> account_type_wire_value(AccountType::spec_from_u8(v)) == Some(v),
{
}
} // verus!
