//! SBE decode functions for Binance Spot HTTP responses.
//!
//! Each function decodes raw SBE bytes into domain types, validating the
//! message header (schema ID, version, template ID) before extracting fields.
//!
//! The contract of each decoder is stated over the byte offsets of the SBE
//! layout: which error comes first for a given buffer, and, on success, at
//! which offsets every field of the result was read.

use vstd::prelude::*;

use super::{
    error::SbeDecodeError,
    models::{
        BinanceAccountInfo, BinanceAccountTrade, BinanceBalance, BinanceCancelOrderResponse,
        BinanceDepth, BinanceNewOrderResponse, BinanceOrderFill, BinanceOrderResponse,
        BinancePriceLevel, BinanceTrade, BinanceTrades,
    },
};
use crate::binance::common::sbe::{
    cursor::{
        byte_i8, group_header_scan, le_i64, le_u16, le_u32, need, opt_i64, var_string_at, var_string_end,
        var_string_scan, SbeCursor, MAX_GROUP_SIZE,
    },
    layout::{item_start, items_scan, lemma_items_step},
    spot::{
        AccountType, BoolEnum, OrderSide, OrderStatus, OrderType, SelfTradePreventionMode,
        TimeInForce, ACCOUNT_TEMPLATE_ID, ACCOUNT_TRADES_TEMPLATE_ID, CANCEL_OPEN_ORDERS_TEMPLATE_ID,
        CANCEL_ORDER_TEMPLATE_ID, DEPTH_TEMPLATE_ID, HEADER_LENGTH, NEW_ORDER_FULL_TEMPLATE_ID,
        ORDERS_TEMPLATE_ID, ORDER_TEMPLATE_ID, PING_TEMPLATE_ID, SBE_SCHEMA_ID, SBE_SCHEMA_VERSION,
        SERVER_TIME_TEMPLATE_ID, TRADES_TEMPLATE_ID,
    },
};

verus! {

/// The first error found in the 8-byte message header of `s` when template
/// `template` is expected, or `None` when the header is accepted.
pub open spec fn header_check(s: Seq<u8>, template: u16) -> Option<SbeDecodeError> {
    match need(s, 0, 8) {
        Some(e) => Some(e),
        None => if le_u16(s, 4) != SBE_SCHEMA_ID {
            Some(SbeDecodeError::SchemaMismatch { expected: SBE_SCHEMA_ID, actual: le_u16(s, 4) as u16 })
        } else if le_u16(s, 6) != SBE_SCHEMA_VERSION {
            Some(
                SbeDecodeError::VersionMismatch {
                    expected: SBE_SCHEMA_VERSION,
                    actual: le_u16(s, 6) as u16,
                },
            )
        } else if le_u16(s, 2) != template {
            Some(SbeDecodeError::UnknownTemplateId(le_u16(s, 2) as u16))
        } else {
            None
        },
    }
}

/// SBE message header.
#[derive(Debug, Clone, Copy)]
struct MessageHeader {
    #[allow(dead_code)]
    block_length: u16,
    template_id: u16,
    schema_id: u16,
    version: u16,
}

impl MessageHeader {
    /// Decode message header using cursor.
    fn decode_cursor(cursor: &mut SbeCursor<'_>) -> (r: Result<Self, SbeDecodeError>)
        ensures
            final(cursor).bytes() == old(cursor).bytes(),
            final(cursor).at() <= final(cursor).bytes().len(),
            match need(old(cursor).bytes(), old(cursor).at(), HEADER_LENGTH as int) {
                Some(e) => r == Err::<Self, SbeDecodeError>(e),
                None => r matches Ok(h) && {
                    let s = old(cursor).bytes();
                    let p = old(cursor).at();
                    &&& h.block_length == le_u16(s, p)
                    &&& h.template_id == le_u16(s, p + 2)
                    &&& h.schema_id == le_u16(s, p + 4)
                    &&& h.version == le_u16(s, p + 6)
                    &&& final(cursor).at() == p + 8
                },
            },
    {
        cursor.require(HEADER_LENGTH)?;
        Ok(Self {
            block_length: cursor.read_u16_le()?,
            template_id: cursor.read_u16_le()?,
            schema_id: cursor.read_u16_le()?,
            version: cursor.read_u16_le()?,
        })
    }

    /// Validate schema ID and version.
    fn validate(&self) -> (r: Result<(), SbeDecodeError>)
        ensures
            self.schema_id != SBE_SCHEMA_ID ==> r == Err::<(), SbeDecodeError>(
                SbeDecodeError::SchemaMismatch { expected: SBE_SCHEMA_ID, actual: self.schema_id },
            ),
            self.schema_id == SBE_SCHEMA_ID && self.version != SBE_SCHEMA_VERSION ==> r == Err::<
                (),
                SbeDecodeError,
            >(SbeDecodeError::VersionMismatch { expected: SBE_SCHEMA_VERSION, actual: self.version }),
            self.schema_id == SBE_SCHEMA_ID && self.version == SBE_SCHEMA_VERSION ==> r is Ok,
    {
        if self.schema_id != SBE_SCHEMA_ID {
            return Err(
                SbeDecodeError::SchemaMismatch { expected: SBE_SCHEMA_ID, actual: self.schema_id },
            );
        }
        if self.version != SBE_SCHEMA_VERSION {
            return Err(
                SbeDecodeError::VersionMismatch { expected: SBE_SCHEMA_VERSION, actual: self.version },
            );
        }
        Ok(())
    }
}

/// Reads and checks the message header; on success the cursor is at offset 8.
fn open_message(buf: &[u8], template: u16) -> (r: Result<SbeCursor<'_>, SbeDecodeError>)
    ensures
        match header_check(buf@, template) {
            Some(e) => r == Err::<SbeCursor, SbeDecodeError>(e),
            None => r matches Ok(c) && c.bytes() == buf@ && c.at() == 8,
        },
{
    let mut cursor = SbeCursor::new(buf);
    let header = MessageHeader::decode_cursor(&mut cursor)?;
    header.validate()?;
    if header.template_id != template {
        return Err(SbeDecodeError::UnknownTemplateId(header.template_id));
    }
    Ok(cursor)
}

/// Number of bytes spanned by `count` entries of `block_length` bytes.
fn group_span(block_length: u16, count: u32) -> (n: usize)
    requires
        count <= MAX_GROUP_SIZE,
    ensures
        n == block_length * count,
{
    assert(block_length * count <= 65535 * 10000) by (nonlinear_arith)
        requires
            block_length <= 65535,
            count <= 10000,
    ;
    block_length as usize * count as usize
}

/// Decode a ping response.
///
/// Ping response has no body (block_length = 0), just validates the header.
///
/// # Errors
///
/// Returns error if buffer is too short or schema mismatch.
pub fn decode_ping(buf: &[u8]) -> (r: Result<(), SbeDecodeError>)
    ensures
        match header_check(buf@, PING_TEMPLATE_ID) {
            Some(e) => r == Err::<(), SbeDecodeError>(e),
            None => r is Ok,
        },
{
    let _cursor = open_message(buf, PING_TEMPLATE_ID)?;
    Ok(())
}

/// Decode a server time response.
///
/// Returns the server time as **microseconds** since epoch (SBE provides
/// microsecond precision vs JSON's milliseconds).
///
/// # Errors
///
/// Returns error if buffer is too short or schema mismatch.
pub fn decode_server_time(buf: &[u8]) -> (r: Result<i64, SbeDecodeError>)
    ensures
        match header_check(buf@, SERVER_TIME_TEMPLATE_ID) {
            Some(e) => r == Err::<i64, SbeDecodeError>(e),
            None => match need(buf@, 8, 8) {
                Some(e) => r == Err::<i64, SbeDecodeError>(e),
                None => r == Ok::<i64, SbeDecodeError>(le_i64(buf@, 8) as i64),
            },
        },
{
    let mut cursor = open_message(buf, SERVER_TIME_TEMPLATE_ID)?;
    cursor.read_i64_le()
}

/// Scan of one order book level entry at `q` in a group of `block_len`-byte
/// entries: a price and a quantity mantissa are read, then the entry is skipped.
pub open spec fn level_item(s: Seq<u8>, block_len: int) -> spec_fn(int) -> Result<int, SbeDecodeError> {
    |q: int|
        match need(s, q, 8) {
            Some(e) => Err(e),
            None => match need(s, q + 8, 8) {
                Some(e) => Err(e),
                None => Ok(q + block_len),
            },
        }
}

/// The level entry at `q` holds `v`.
pub open spec fn level_at(s: Seq<u8>, q: int, v: BinancePriceLevel) -> bool {
    &&& v.price_mantissa == le_i64(s, q)
    &&& v.qty_mantissa == le_i64(s, q + 8)
}

/// Outcome of reading a group of order book levels whose header is at `p`:
/// the offset after the group, or the error.
pub open spec fn level_group_scan(s: Seq<u8>, p: int) -> Result<int, SbeDecodeError> {
    match group_header_scan(s, p) {
        Err(e) => Err(e),
        Ok((bl, n)) => match need(s, p + 6, bl * n) {
            Some(e) => Err(e),
            None => items_scan(level_item(s, bl as int), p + 6, n as nat),
        },
    }
}

/// `v` holds the levels of the group whose header is at `p`, in order.
pub open spec fn levels_decoded(s: Seq<u8>, p: int, v: Seq<BinancePriceLevel>) -> bool {
    match group_header_scan(s, p) {
        Err(_) => false,
        Ok((bl, n)) => {
            &&& v.len() == n
            &&& forall|i: int|
                0 <= i < v.len() ==> level_at(
                    s,
                    item_start(level_item(s, bl as int), p + 6, i as nat),
                    #[trigger] v[i],
                )
        },
    }
}

/// Reads a group of order book levels.
fn read_price_levels(cursor: &mut SbeCursor<'_>) -> (r: Result<Vec<BinancePriceLevel>, SbeDecodeError>)
    ensures
        final(cursor).bytes() == old(cursor).bytes(),
        final(cursor).at() <= final(cursor).bytes().len(),
        match level_group_scan(old(cursor).bytes(), old(cursor).at()) {
            Err(e) => r == Err::<Vec<BinancePriceLevel>, SbeDecodeError>(e),
            Ok(end) => r matches Ok(v) && final(cursor).at() == end && levels_decoded(
                old(cursor).bytes(),
                old(cursor).at(),
                v@,
            ),
        },
{
    let ghost s = cursor.bytes();
    let ghost p = cursor.at();
    let (block_len, count) = cursor.read_group_header()?;
    let span = group_span(block_len, count);
    cursor.require(span)?;
    let ghost base = cursor.at();
    let ghost f = level_item(s, block_len as int);
    let mut items: Vec<BinancePriceLevel> = Vec::new();
    let mut i: u32 = 0;
    while i < count
        invariant
            cursor.bytes() == s,
            s == old(cursor).bytes(),
            p == old(cursor).at(),
            cursor.at() <= s.len(),
            base == p + 6,
            group_header_scan(s, p) == Ok::<(u16, u32), SbeDecodeError>((block_len, count)),
            need(s, base, block_len * count) is None,
            f == level_item(s, block_len as int),
            i <= count,
            cursor.at() == item_start(f, base, i as nat),
            cursor.at() == base + i * block_len,
            items_scan(f, base, count as nat) == items_scan(f, cursor.at(), (count - i) as nat),
            items@.len() == i,
            forall|j: int|
                0 <= j < i ==> level_at(s, item_start(f, base, j as nat), #[trigger] items@[j]),
        decreases count - i,
    {
        let start = cursor.position();
        proof {
            lemma_items_step(f, base, count as nat, i as nat);
            assert((i + 1) * block_len <= block_len * count) by (nonlinear_arith)
                requires
                    i + 1 <= count,
            ;
            assert((i + 1) * block_len == i * block_len + block_len) by (nonlinear_arith);
        }
        let price_mantissa = cursor.read_i64_le()?;
        let qty_mantissa = cursor.read_i64_le()?;
        cursor.seek(start + block_len as usize);
        items.push(BinancePriceLevel { price_mantissa, qty_mantissa });
        i = i + 1;
    }
    Ok(items)
}

/// Outcome of decoding a depth response.
pub open spec fn depth_decoded(s: Seq<u8>, r: Result<BinanceDepth, SbeDecodeError>) -> bool {
    match header_check(s, DEPTH_TEMPLATE_ID) {
        Some(e) => r == Err::<BinanceDepth, SbeDecodeError>(e),
        None => match need(s, 8, 8) {
            Some(e) => r == Err::<BinanceDepth, SbeDecodeError>(e),
            None => match need(s, 16, 1) {
                Some(e) => r == Err::<BinanceDepth, SbeDecodeError>(e),
                None => match need(s, 17, 1) {
                    Some(e) => r == Err::<BinanceDepth, SbeDecodeError>(e),
                    None => match level_group_scan(s, 18) {
                        Err(e) => r == Err::<BinanceDepth, SbeDecodeError>(e),
                        Ok(asks_at) => match level_group_scan(s, asks_at) {
                            Err(e) => r == Err::<BinanceDepth, SbeDecodeError>(e),
                            Ok(_) => r matches Ok(d) && {
                                &&& d.last_update_id == le_i64(s, 8)
                                &&& d.price_exponent == byte_i8(s, 16)
                                &&& d.qty_exponent == byte_i8(s, 17)
                                &&& levels_decoded(s, 18, d.bids@)
                                &&& levels_decoded(s, asks_at, d.asks@)
                            },
                        },
                    },
                },
            },
        },
    }
}

/// Decode a depth response.
///
/// Returns the order book depth with bids and asks.
///
/// # Errors
///
/// Returns error if buffer is too short, schema mismatch, or group size exceeded.
pub fn decode_depth(buf: &[u8]) -> (r: Result<BinanceDepth, SbeDecodeError>)
    ensures
        depth_decoded(buf@, r),
{
    let mut cursor = open_message(buf, DEPTH_TEMPLATE_ID)?;

    let last_update_id = cursor.read_i64_le()?;
    let price_exponent = cursor.read_i8()?;
    let qty_exponent = cursor.read_i8()?;

    let bids = read_price_levels(&mut cursor)?;
    let asks = read_price_levels(&mut cursor)?;

    Ok(BinanceDepth { last_update_id, price_exponent, qty_exponent, bids, asks })
}

/// Scan of one trade entry at `q` in a group of `block_len`-byte entries.
pub open spec fn trade_item(s: Seq<u8>, block_len: int) -> spec_fn(int) -> Result<int, SbeDecodeError> {
    |q: int|
        match need(s, q, 8) {
            Some(e) => Err(e),
            None => match need(s, q + 8, 8) {
                Some(e) => Err(e),
                None => match need(s, q + 16, 8) {
                    Some(e) => Err(e),
                    None => match need(s, q + 24, 8) {
                        Some(e) => Err(e),
                        None => match need(s, q + 32, 8) {
                            Some(e) => Err(e),
                            None => match need(s, q + 40, 1) {
                                Some(e) => Err(e),
                                None => match need(s, q + 41, 1) {
                                    Some(e) => Err(e),
                                    None => Ok(q + block_len),
                                },
                            },
                        },
                    },
                },
            },
        }
}

/// The trade entry at `q` holds `t`.
pub open spec fn trade_at(s: Seq<u8>, q: int, t: BinanceTrade) -> bool {
    &&& t.id == le_i64(s, q)
    &&& t.price_mantissa == le_i64(s, q + 8)
    &&& t.qty_mantissa == le_i64(s, q + 16)
    &&& t.quote_qty_mantissa == le_i64(s, q + 24)
    &&& t.time == le_i64(s, q + 32)
    &&& t.is_buyer_maker == (s[q + 40] == 1)
    &&& t.is_best_match == (s[q + 41] == 1)
}

/// Outcome of reading a group of trades whose header is at `p`.
pub open spec fn trade_group_scan(s: Seq<u8>, p: int) -> Result<int, SbeDecodeError> {
    match group_header_scan(s, p) {
        Err(e) => Err(e),
        Ok((bl, n)) => match need(s, p + 6, bl * n) {
            Some(e) => Err(e),
            None => items_scan(trade_item(s, bl as int), p + 6, n as nat),
        },
    }
}

/// `v` holds the trades of the group whose header is at `p`, in order.
pub open spec fn trades_decoded(s: Seq<u8>, p: int, v: Seq<BinanceTrade>) -> bool {
    match group_header_scan(s, p) {
        Err(_) => false,
        Ok((bl, n)) => {
            &&& v.len() == n
            &&& forall|i: int|
                0 <= i < v.len() ==> trade_at(
                    s,
                    item_start(trade_item(s, bl as int), p + 6, i as nat),
                    #[trigger] v[i],
                )
        },
    }
}

/// Reads an SBE boolean.
fn read_bool(cursor: &mut SbeCursor<'_>) -> (r: Result<bool, SbeDecodeError>)
    ensures
        final(cursor).bytes() == old(cursor).bytes(),
        final(cursor).at() <= final(cursor).bytes().len(),
        match need(old(cursor).bytes(), old(cursor).at(), 1) {
            None => r == Ok::<bool, SbeDecodeError>(old(cursor).bytes()[old(cursor).at()] == 1)
                && final(cursor).at() == old(cursor).at() + 1,
            Some(e) => r == Err::<bool, SbeDecodeError>(e),
        },
{
    let b = cursor.read_u8()?;
    Ok(BoolEnum::from_u8(b) == BoolEnum::True)
}

/// Reads a group of trades.
fn read_trades(cursor: &mut SbeCursor<'_>) -> (r: Result<Vec<BinanceTrade>, SbeDecodeError>)
    ensures
        final(cursor).bytes() == old(cursor).bytes(),
        final(cursor).at() <= final(cursor).bytes().len(),
        match trade_group_scan(old(cursor).bytes(), old(cursor).at()) {
            Err(e) => r == Err::<Vec<BinanceTrade>, SbeDecodeError>(e),
            Ok(end) => r matches Ok(v) && final(cursor).at() == end && trades_decoded(
                old(cursor).bytes(),
                old(cursor).at(),
                v@,
            ),
        },
{
    let ghost s = cursor.bytes();
    let ghost p = cursor.at();
    let (block_len, count) = cursor.read_group_header()?;
    let span = group_span(block_len, count);
    cursor.require(span)?;
    let ghost base = cursor.at();
    let ghost f = trade_item(s, block_len as int);
    let mut items: Vec<BinanceTrade> = Vec::new();
    let mut i: u32 = 0;
    while i < count
        invariant
            cursor.bytes() == s,
            s == old(cursor).bytes(),
            p == old(cursor).at(),
            cursor.at() <= s.len(),
            base == p + 6,
            group_header_scan(s, p) == Ok::<(u16, u32), SbeDecodeError>((block_len, count)),
            need(s, base, block_len * count) is None,
            f == trade_item(s, block_len as int),
            i <= count,
            cursor.at() == item_start(f, base, i as nat),
            cursor.at() == base + i * block_len,
            items_scan(f, base, count as nat) == items_scan(f, cursor.at(), (count - i) as nat),
            items@.len() == i,
            forall|j: int|
                0 <= j < i ==> trade_at(s, item_start(f, base, j as nat), #[trigger] items@[j]),
        decreases count - i,
    {
        let start = cursor.position();
        proof {
            lemma_items_step(f, base, count as nat, i as nat);
            assert((i + 1) * block_len <= block_len * count) by (nonlinear_arith)
                requires
                    i + 1 <= count,
            ;
            assert((i + 1) * block_len == i * block_len + block_len) by (nonlinear_arith);
        }
        let id = cursor.read_i64_le()?;
        let price_mantissa = cursor.read_i64_le()?;
        let qty_mantissa = cursor.read_i64_le()?;
        let quote_qty_mantissa = cursor.read_i64_le()?;
        let time = cursor.read_i64_le()?;
        let is_buyer_maker = read_bool(cursor)?;
        let is_best_match = read_bool(cursor)?;
        cursor.seek(start + block_len as usize);
        items.push(
            BinanceTrade {
                id,
                price_mantissa,
                qty_mantissa,
                quote_qty_mantissa,
                time,
                is_buyer_maker,
                is_best_match,
            },
        );
        i = i + 1;
    }
    Ok(items)
}

/// Outcome of decoding a trades response.
pub open spec fn trades_response_decoded(s: Seq<u8>, r: Result<BinanceTrades, SbeDecodeError>) -> bool {
    match header_check(s, TRADES_TEMPLATE_ID) {
        Some(e) => r == Err::<BinanceTrades, SbeDecodeError>(e),
        None => match need(s, 8, 1) {
            Some(e) => r == Err::<BinanceTrades, SbeDecodeError>(e),
            None => match need(s, 9, 1) {
                Some(e) => r == Err::<BinanceTrades, SbeDecodeError>(e),
                None => match trade_group_scan(s, 10) {
                    Err(e) => r == Err::<BinanceTrades, SbeDecodeError>(e),
                    Ok(_) => r matches Ok(t) && {
                        &&& t.price_exponent == byte_i8(s, 8)
                        &&& t.qty_exponent == byte_i8(s, 9)
                        &&& trades_decoded(s, 10, t.trades@)
                    },
                },
            },
        },
    }
}

/// Decode a trades response.
///
/// Returns the list of trades.
///
/// # Errors
///
/// Returns error if buffer is too short, schema mismatch, or group size exceeded.
pub fn decode_trades(buf: &[u8]) -> (r: Result<BinanceTrades, SbeDecodeError>)
    ensures
        trades_response_decoded(buf@, r),
{
    let mut cursor = open_message(buf, TRADES_TEMPLATE_ID)?;

    let price_exponent = cursor.read_i8()?;
    let qty_exponent = cursor.read_i8()?;

    let trades = read_trades(&mut cursor)?;

    Ok(BinanceTrades { price_exponent, qty_exponent, trades })
}


/// Block length for new order full response.
pub const NEW_ORDER_FULL_BLOCK_LENGTH: usize = 153;

/// Block length for cancel order response.
pub const CANCEL_ORDER_BLOCK_LENGTH: usize = 137;

/// Block length for order response (query).
pub const ORDER_BLOCK_LENGTH: usize = 153;

/// Block length for orders group item.
pub const ORDERS_GROUP_BLOCK_LENGTH: usize = 162;

/// Account response block length (from SBE codec).
pub const ACCOUNT_BLOCK_LENGTH: usize = 64;

/// Balance group item block length (from SBE codec).
pub const BALANCE_BLOCK_LENGTH: u16 = 17;

/// Account trade group item block length (from SBE codec).
pub const ACCOUNT_TRADE_BLOCK_LENGTH: u16 = 70;

/// Fills group item block length (from SBE codec).
pub const FILLS_BLOCK_LENGTH: u16 = 42;

/// Scan of one fill entry at `q`: its 42-byte block, then the commission asset.
pub open spec fn fill_item(s: Seq<u8>) -> spec_fn(int) -> Result<int, SbeDecodeError> {
    |q: int|
        match need(s, q, 42) {
            Some(e) => Err(e),
            None => var_string_scan(s, q + 42),
        }
}

/// The fill entry at `q` holds `f`.
pub open spec fn fill_at(s: Seq<u8>, q: int, f: BinanceOrderFill) -> bool {
    &&& f.commission_exponent == byte_i8(s, q)
    &&& f.price_mantissa == le_i64(s, q + 2)
    &&& f.qty_mantissa == le_i64(s, q + 10)
    &&& f.commission_mantissa == le_i64(s, q + 18)
    &&& f.trade_id == opt_i64(s, q + 26)
    &&& f.commission_asset@ == var_string_at(s, q + 42)
}

/// Outcome of reading the fills group whose header is at `p`.
pub open spec fn fills_group_scan(s: Seq<u8>, p: int) -> Result<int, SbeDecodeError> {
    match group_header_scan(s, p) {
        Err(e) => Err(e),
        Ok((bl, n)) => if bl != FILLS_BLOCK_LENGTH {
            Err(SbeDecodeError::InvalidBlockLength { expected: FILLS_BLOCK_LENGTH, actual: bl })
        } else {
            items_scan(fill_item(s), p + 6, n as nat)
        },
    }
}

/// `v` holds the fills of the group whose header is at `p`, in order.
pub open spec fn fills_decoded(s: Seq<u8>, p: int, v: Seq<BinanceOrderFill>) -> bool {
    match group_header_scan(s, p) {
        Err(_) => false,
        Ok((_, n)) => {
            &&& v.len() == n
            &&& forall|i: int|
                0 <= i < v.len() ==> fill_at(s, item_start(fill_item(s), p + 6, i as nat), #[trigger] v[i])
        },
    }
}

/// Decode order fills using cursor.
fn decode_fills_cursor(cursor: &mut SbeCursor<'_>) -> (r: Result<Vec<BinanceOrderFill>, SbeDecodeError>)
    ensures
        final(cursor).bytes() == old(cursor).bytes(),
        final(cursor).at() <= final(cursor).bytes().len(),
        match fills_group_scan(old(cursor).bytes(), old(cursor).at()) {
            Err(e) => r == Err::<Vec<BinanceOrderFill>, SbeDecodeError>(e),
            Ok(end) => r matches Ok(v) && final(cursor).at() == end && fills_decoded(
                old(cursor).bytes(),
                old(cursor).at(),
                v@,
            ),
        },
{
    let ghost s = cursor.bytes();
    let ghost p = cursor.at();
    let (block_length, count) = cursor.read_group_header()?;

    if block_length != FILLS_BLOCK_LENGTH {
        return Err(
            SbeDecodeError::InvalidBlockLength { expected: FILLS_BLOCK_LENGTH, actual: block_length },
        );
    }

    let ghost base = cursor.at();
    let ghost f = fill_item(s);
    let mut fills: Vec<BinanceOrderFill> = Vec::new();
    let mut i: u32 = 0;
    while i < count
        invariant
            cursor.bytes() == s,
            s == old(cursor).bytes(),
            p == old(cursor).at(),
            cursor.at() <= s.len(),
            base == p + 6,
            group_header_scan(s, p) == Ok::<(u16, u32), SbeDecodeError>((block_length, count)),
            block_length == FILLS_BLOCK_LENGTH,
            f == fill_item(s),
            i <= count,
            cursor.at() == item_start(f, base, i as nat),
            items_scan(f, base, count as nat) == items_scan(f, cursor.at(), (count - i) as nat),
            fills@.len() == i,
            forall|j: int|
                0 <= j < i ==> fill_at(s, item_start(f, base, j as nat), #[trigger] fills@[j]),
        decreases count - i,
    {
        proof {
            lemma_items_step(f, base, count as nat, i as nat);
        }
        cursor.require(block_length as usize)?;

        let commission_exponent = cursor.read_i8()?;
        cursor.advance(1)?;  // Skip matchType
        let price_mantissa = cursor.read_i64_le()?;
        let qty_mantissa = cursor.read_i64_le()?;
        let commission_mantissa = cursor.read_i64_le()?;
        let trade_id = cursor.read_optional_i64_le()?;
        cursor.advance(8)?;  // Skip allocId

        let commission_asset = cursor.read_var_string8()?;

        fills.push(
            BinanceOrderFill {
                price_mantissa,
                qty_mantissa,
                commission_mantissa,
                commission_exponent,
                commission_asset,
                trade_id,
            },
        );
        i = i + 1;
    }

    Ok(fills)
}

/// Checks the header and that the fixed block of `block` bytes after it is present.
pub open spec fn fixed_block_check(s: Seq<u8>, template: u16, block: int) -> Option<SbeDecodeError> {
    match header_check(s, template) {
        Some(e) => Some(e),
        None => need(s, 8, block),
    }
}

/// Offset where the symbol string of a new order full response starts: after
/// the fixed block, the fills group and the prevented-matches group whose
/// header is at `pm`.
pub open spec fn prevented_matches_end(s: Seq<u8>, pm: int) -> int {
    match group_header_scan(s, pm) {
        Ok((bl, n)) => pm + 6 + bl * n,
        Err(_) => pm,
    }
}

/// The first error met decoding a new order full response, or `None`.
pub open spec fn new_order_full_scan(s: Seq<u8>) -> Option<SbeDecodeError> {
    match fixed_block_check(s, NEW_ORDER_FULL_TEMPLATE_ID, NEW_ORDER_FULL_BLOCK_LENGTH as int) {
        Some(e) => Some(e),
        None => match fills_group_scan(s, 161) {
            Err(e) => Some(e),
            Ok(pm) => match group_header_scan(s, pm) {
                Err(e) => Some(e),
                Ok((bl, n)) => match need(s, pm + 6, bl * n) {
                    Some(e) => Some(e),
                    None => match var_string_scan(s, pm + 6 + bl * n) {
                        Err(e) => Some(e),
                        Ok(p1) => match var_string_scan(s, p1) {
                            Err(e) => Some(e),
                            Ok(_) => None,
                        },
                    },
                },
            },
        },
    }
}

/// The fields of a new order full response decoded from `s`.
pub open spec fn new_order_full_fields(s: Seq<u8>, o: BinanceNewOrderResponse) -> bool {
    &&& o.price_exponent == byte_i8(s, 8)
    &&& o.qty_exponent == byte_i8(s, 9)
    &&& o.order_id == le_i64(s, 10)
    &&& o.order_list_id == opt_i64(s, 18)
    &&& o.transact_time == le_i64(s, 26)
    &&& o.price_mantissa == le_i64(s, 34)
    &&& o.orig_qty_mantissa == le_i64(s, 42)
    &&& o.executed_qty_mantissa == le_i64(s, 50)
    &&& o.cummulative_quote_qty_mantissa == le_i64(s, 58)
    &&& o.status == OrderStatus::spec_from_u8(s[66])
    &&& o.time_in_force == TimeInForce::spec_from_u8(s[67])
    &&& o.order_type == OrderType::spec_from_u8(s[68])
    &&& o.side == OrderSide::spec_from_u8(s[69])
    &&& o.stop_price_mantissa == opt_i64(s, 70)
    &&& o.working_time == opt_i64(s, 94)
    &&& o.self_trade_prevention_mode == SelfTradePreventionMode::spec_from_u8(s[125])
    &&& fills_decoded(s, 161, o.fills@)
    &&& fills_group_scan(s, 161) matches Ok(pm) && {
        let p0 = prevented_matches_end(s, pm);
        &&& o.symbol@ == var_string_at(s, p0)
        &&& o.client_order_id@ == var_string_at(s, var_string_end(s, p0))
    }
}

/// Decode a new order full response.
///
/// # Errors
///
/// Returns error if buffer is too short, schema mismatch, or decode error.
pub fn decode_new_order_full(buf: &[u8]) -> (r: Result<BinanceNewOrderResponse, SbeDecodeError>)
    ensures
        match new_order_full_scan(buf@) {
            Some(e) => r == Err::<BinanceNewOrderResponse, SbeDecodeError>(e),
            None => r matches Ok(o) && new_order_full_fields(buf@, o),
        },
{
    let mut cursor = open_message(buf, NEW_ORDER_FULL_TEMPLATE_ID)?;

    cursor.require(NEW_ORDER_FULL_BLOCK_LENGTH)?;

    let price_exponent = cursor.read_i8()?;
    let qty_exponent = cursor.read_i8()?;
    let order_id = cursor.read_i64_le()?;
    let order_list_id = cursor.read_optional_i64_le()?;
    let transact_time = cursor.read_i64_le()?;
    let price_mantissa = cursor.read_i64_le()?;
    let orig_qty_mantissa = cursor.read_i64_le()?;
    let executed_qty_mantissa = cursor.read_i64_le()?;
    let cummulative_quote_qty_mantissa = cursor.read_i64_le()?;
    let status = OrderStatus::from_u8(cursor.read_u8()?);
    let time_in_force = TimeInForce::from_u8(cursor.read_u8()?);
    let order_type = OrderType::from_u8(cursor.read_u8()?);
    let side = OrderSide::from_u8(cursor.read_u8()?);
    let stop_price_mantissa = cursor.read_optional_i64_le()?;

    cursor.advance(16)?;  // Skip trailing_delta (8) + trailing_time (8)
    let working_time = cursor.read_optional_i64_le()?;

    cursor.advance(23)?;  // Skip iceberg to used_sor
    let self_trade_prevention_mode = SelfTradePreventionMode::from_u8(cursor.read_u8()?);

    cursor.advance(16)?;  // Skip trade_group_id + prevented_quantity
    let _commission_exponent = cursor.read_i8()?;

    cursor.advance(18)?;  // Skip to end of fixed block

    let fills = decode_fills_cursor(&mut cursor)?;

    // Skip prevented matches group
    let (block_len, count) = cursor.read_group_header()?;
    cursor.advance(group_span(block_len, count))?;

    let symbol = cursor.read_var_string8()?;
    let client_order_id = cursor.read_var_string8()?;

    Ok(
        BinanceNewOrderResponse {
            price_exponent,
            qty_exponent,
            order_id,
            order_list_id,
            transact_time,
            price_mantissa,
            orig_qty_mantissa,
            executed_qty_mantissa,
            cummulative_quote_qty_mantissa,
            status,
            time_in_force,
            order_type,
            side,
            stop_price_mantissa,
            working_time,
            self_trade_prevention_mode,
            client_order_id,
            symbol,
            fills,
        },
    )
}


/// The first error met decoding a cancel order response, or `None`.
pub open spec fn cancel_order_scan(s: Seq<u8>) -> Option<SbeDecodeError> {
    match fixed_block_check(s, CANCEL_ORDER_TEMPLATE_ID, CANCEL_ORDER_BLOCK_LENGTH as int) {
        Some(e) => Some(e),
        None => match var_string_scan(s, 145) {
            Err(e) => Some(e),
            Ok(p1) => match var_string_scan(s, p1) {
                Err(e) => Some(e),
                Ok(p2) => match var_string_scan(s, p2) {
                    Err(e) => Some(e),
                    Ok(_) => None,
                },
            },
        },
    }
}

/// The fields of a cancel order response decoded from `s`.
pub open spec fn cancel_order_fields(s: Seq<u8>, c: BinanceCancelOrderResponse) -> bool {
    &&& c.price_exponent == byte_i8(s, 8)
    &&& c.qty_exponent == byte_i8(s, 9)
    &&& c.order_id == le_i64(s, 10)
    &&& c.order_list_id == opt_i64(s, 18)
    &&& c.transact_time == le_i64(s, 26)
    &&& c.price_mantissa == le_i64(s, 34)
    &&& c.orig_qty_mantissa == le_i64(s, 42)
    &&& c.executed_qty_mantissa == le_i64(s, 50)
    &&& c.cummulative_quote_qty_mantissa == le_i64(s, 58)
    &&& c.status == OrderStatus::spec_from_u8(s[66])
    &&& c.time_in_force == TimeInForce::spec_from_u8(s[67])
    &&& c.order_type == OrderType::spec_from_u8(s[68])
    &&& c.side == OrderSide::spec_from_u8(s[69])
    &&& c.self_trade_prevention_mode == SelfTradePreventionMode::spec_from_u8(s[70])
    &&& c.symbol@ == var_string_at(s, 145)
    &&& c.orig_client_order_id@ == var_string_at(s, var_string_end(s, 145))
    &&& c.client_order_id@ == var_string_at(s, var_string_end(s, var_string_end(s, 145)))
}

/// Decode a cancel order response.
///
/// # Errors
///
/// Returns error if buffer is too short, schema mismatch, or decode error.
pub fn decode_cancel_order(buf: &[u8]) -> (r: Result<BinanceCancelOrderResponse, SbeDecodeError>)
    ensures
        match cancel_order_scan(buf@) {
            Some(e) => r == Err::<BinanceCancelOrderResponse, SbeDecodeError>(e),
            None => r matches Ok(c) && cancel_order_fields(buf@, c),
        },
{
    let mut cursor = open_message(buf, CANCEL_ORDER_TEMPLATE_ID)?;

    cursor.require(CANCEL_ORDER_BLOCK_LENGTH)?;

    let price_exponent = cursor.read_i8()?;
    let qty_exponent = cursor.read_i8()?;
    let order_id = cursor.read_i64_le()?;
    let order_list_id = cursor.read_optional_i64_le()?;
    let transact_time = cursor.read_i64_le()?;
    let price_mantissa = cursor.read_i64_le()?;
    let orig_qty_mantissa = cursor.read_i64_le()?;
    let executed_qty_mantissa = cursor.read_i64_le()?;
    let cummulative_quote_qty_mantissa = cursor.read_i64_le()?;
    let status = OrderStatus::from_u8(cursor.read_u8()?);
    let time_in_force = TimeInForce::from_u8(cursor.read_u8()?);
    let order_type = OrderType::from_u8(cursor.read_u8()?);
    let side = OrderSide::from_u8(cursor.read_u8()?);
    let self_trade_prevention_mode = SelfTradePreventionMode::from_u8(cursor.read_u8()?);

    cursor.advance(CANCEL_ORDER_BLOCK_LENGTH - 63)?;  // Skip to end of fixed block

    let symbol = cursor.read_var_string8()?;
    let orig_client_order_id = cursor.read_var_string8()?;
    let client_order_id = cursor.read_var_string8()?;

    Ok(
        BinanceCancelOrderResponse {
            price_exponent,
            qty_exponent,
            order_id,
            order_list_id,
            transact_time,
            price_mantissa,
            orig_qty_mantissa,
            executed_qty_mantissa,
            cummulative_quote_qty_mantissa,
            status,
            time_in_force,
            order_type,
            side,
            self_trade_prevention_mode,
            client_order_id,
            orig_client_order_id,
            symbol,
        },
    )
}

/// The first error met decoding an order query response, or `None`.
pub open spec fn order_scan(s: Seq<u8>) -> Option<SbeDecodeError> {
    match fixed_block_check(s, ORDER_TEMPLATE_ID, ORDER_BLOCK_LENGTH as int) {
        Some(e) => Some(e),
        None => match var_string_scan(s, 161) {
            Err(e) => Some(e),
            Ok(p1) => match var_string_scan(s, p1) {
                Err(e) => Some(e),
                Ok(_) => None,
            },
        },
    }
}

/// The fields of an order query response decoded from `s`.
pub open spec fn order_fields(s: Seq<u8>, o: BinanceOrderResponse) -> bool {
    &&& o.price_exponent == byte_i8(s, 8)
    &&& o.qty_exponent == byte_i8(s, 9)
    &&& o.order_id == le_i64(s, 10)
    &&& o.order_list_id == opt_i64(s, 18)
    &&& o.price_mantissa == le_i64(s, 26)
    &&& o.orig_qty_mantissa == le_i64(s, 34)
    &&& o.executed_qty_mantissa == le_i64(s, 42)
    &&& o.cummulative_quote_qty_mantissa == le_i64(s, 50)
    &&& o.status == OrderStatus::spec_from_u8(s[58])
    &&& o.time_in_force == TimeInForce::spec_from_u8(s[59])
    &&& o.order_type == OrderType::spec_from_u8(s[60])
    &&& o.side == OrderSide::spec_from_u8(s[61])
    &&& o.stop_price_mantissa == opt_i64(s, 62)
    &&& o.iceberg_qty_mantissa == opt_i64(s, 70)
    &&& o.time == le_i64(s, 78)
    &&& o.update_time == le_i64(s, 86)
    &&& o.is_working == (s[94] == 1)
    &&& o.working_time == opt_i64(s, 95)
    &&& o.orig_quote_order_qty_mantissa == le_i64(s, 103)
    &&& o.self_trade_prevention_mode == SelfTradePreventionMode::spec_from_u8(s[111])
    &&& o.symbol@ == var_string_at(s, 161)
    &&& o.client_order_id@ == var_string_at(s, var_string_end(s, 161))
}

/// Decode an order query response.
///
/// # Errors
///
/// Returns error if buffer is too short, schema mismatch, or decode error.
pub fn decode_order(buf: &[u8]) -> (r: Result<BinanceOrderResponse, SbeDecodeError>)
    ensures
        match order_scan(buf@) {
            Some(e) => r == Err::<BinanceOrderResponse, SbeDecodeError>(e),
            None => r matches Ok(o) && order_fields(buf@, o),
        },
{
    let mut cursor = open_message(buf, ORDER_TEMPLATE_ID)?;

    cursor.require(ORDER_BLOCK_LENGTH)?;

    let price_exponent = cursor.read_i8()?;
    let qty_exponent = cursor.read_i8()?;
    let order_id = cursor.read_i64_le()?;
    let order_list_id = cursor.read_optional_i64_le()?;
    let price_mantissa = cursor.read_i64_le()?;
    let orig_qty_mantissa = cursor.read_i64_le()?;
    let executed_qty_mantissa = cursor.read_i64_le()?;
    let cummulative_quote_qty_mantissa = cursor.read_i64_le()?;
    let status = OrderStatus::from_u8(cursor.read_u8()?);
    let time_in_force = TimeInForce::from_u8(cursor.read_u8()?);
    let order_type = OrderType::from_u8(cursor.read_u8()?);
    let side = OrderSide::from_u8(cursor.read_u8()?);
    let stop_price_mantissa = cursor.read_optional_i64_le()?;
    let iceberg_qty_mantissa = cursor.read_optional_i64_le()?;
    let time = cursor.read_i64_le()?;
    let update_time = cursor.read_i64_le()?;
    let is_working = read_bool(&mut cursor)?;
    let working_time = cursor.read_optional_i64_le()?;
    let orig_quote_order_qty_mantissa = cursor.read_i64_le()?;
    let self_trade_prevention_mode = SelfTradePreventionMode::from_u8(cursor.read_u8()?);

    cursor.advance(ORDER_BLOCK_LENGTH - 104)?;  // Skip to end of fixed block

    let symbol = cursor.read_var_string8()?;
    let client_order_id = cursor.read_var_string8()?;

    Ok(
        BinanceOrderResponse {
            price_exponent,
            qty_exponent,
            order_id,
            order_list_id,
            price_mantissa,
            orig_qty_mantissa,
            executed_qty_mantissa,
            cummulative_quote_qty_mantissa,
            status,
            time_in_force,
            order_type,
            side,
            stop_price_mantissa,
            iceberg_qty_mantissa,
            time,
            update_time,
            is_working,
            working_time,
            orig_quote_order_qty_mantissa,
            self_trade_prevention_mode,
            client_order_id,
            symbol,
        },
    )
}


/// Scan of one entry at `q` of an orders response: its 162-byte block, then
/// the symbol and the client order id.
pub open spec fn orders_item(s: Seq<u8>) -> spec_fn(int) -> Result<int, SbeDecodeError> {
    |q: int|
        match need(s, q, 162) {
            Some(e) => Err(e),
            None => match var_string_scan(s, q + 162) {
                Err(e) => Err(e),
                Ok(q1) => var_string_scan(s, q1),
            },
        }
}

/// The entry at `q` of an orders response holds `o`.
pub open spec fn orders_item_at(s: Seq<u8>, q: int, o: BinanceOrderResponse) -> bool {
    &&& o.price_exponent == byte_i8(s, q)
    &&& o.qty_exponent == byte_i8(s, q + 1)
    &&& o.order_id == le_i64(s, q + 2)
    &&& o.order_list_id == opt_i64(s, q + 10)
    &&& o.price_mantissa == le_i64(s, q + 18)
    &&& o.orig_qty_mantissa == le_i64(s, q + 26)
    &&& o.executed_qty_mantissa == le_i64(s, q + 34)
    &&& o.cummulative_quote_qty_mantissa == le_i64(s, q + 42)
    &&& o.status == OrderStatus::spec_from_u8(s[q + 50])
    &&& o.time_in_force == TimeInForce::spec_from_u8(s[q + 51])
    &&& o.order_type == OrderType::spec_from_u8(s[q + 52])
    &&& o.side == OrderSide::spec_from_u8(s[q + 53])
    &&& o.stop_price_mantissa == opt_i64(s, q + 54)
    &&& o.iceberg_qty_mantissa == opt_i64(s, q + 78)
    &&& o.time == le_i64(s, q + 86)
    &&& o.update_time == le_i64(s, q + 94)
    &&& o.is_working == (s[q + 102] == 1)
    &&& o.working_time == opt_i64(s, q + 103)
    &&& o.orig_quote_order_qty_mantissa == le_i64(s, q + 111)
    &&& o.self_trade_prevention_mode == SelfTradePreventionMode::spec_from_u8(s[q + 133])
    &&& o.symbol@ == var_string_at(s, q + 162)
    &&& o.client_order_id@ == var_string_at(s, var_string_end(s, q + 162))
}

/// The first error met decoding an orders response, or `None`. An empty
/// group is accepted whatever block length it declares.
pub open spec fn orders_scan(s: Seq<u8>) -> Option<SbeDecodeError> {
    match header_check(s, ORDERS_TEMPLATE_ID) {
        Some(e) => Some(e),
        None => match group_header_scan(s, 8) {
            Err(e) => Some(e),
            Ok((bl, n)) => if n == 0 {
                None
            } else if bl != ORDERS_GROUP_BLOCK_LENGTH {
                Some(
                    SbeDecodeError::InvalidBlockLength {
                        expected: ORDERS_GROUP_BLOCK_LENGTH as u16,
                        actual: bl,
                    },
                )
            } else {
                match items_scan(orders_item(s), 14, n as nat) {
                    Err(e) => Some(e),
                    Ok(_) => None,
                }
            },
        },
    }
}

/// `v` holds the entries of the orders response `s`, in order.
pub open spec fn orders_decoded(s: Seq<u8>, v: Seq<BinanceOrderResponse>) -> bool {
    &&& v.len() == le_u32(s, 10)
    &&& forall|i: int|
        0 <= i < v.len() ==> orders_item_at(s, item_start(orders_item(s), 14, i as nat), #[trigger] v[i])
}

/// Decode multiple orders response.
///
/// # Errors
///
/// Returns error if buffer is too short, schema mismatch, or decode error.
pub fn decode_orders(buf: &[u8]) -> (r: Result<Vec<BinanceOrderResponse>, SbeDecodeError>)
    ensures
        match orders_scan(buf@) {
            Some(e) => r == Err::<Vec<BinanceOrderResponse>, SbeDecodeError>(e),
            None => r matches Ok(v) && orders_decoded(buf@, v@),
        },
{
    let mut cursor = open_message(buf, ORDERS_TEMPLATE_ID)?;
    let ghost s = buf@;

    let (block_length, count) = cursor.read_group_header()?;

    if count == 0 {
        return Ok(Vec::new());
    }

    if block_length as usize != ORDERS_GROUP_BLOCK_LENGTH {
        return Err(
            SbeDecodeError::InvalidBlockLength {
                expected: ORDERS_GROUP_BLOCK_LENGTH as u16,
                actual: block_length,
            },
        );
    }

    let ghost f = orders_item(s);
    let mut orders: Vec<BinanceOrderResponse> = Vec::new();
    let mut i: u32 = 0;
    while i < count
        invariant
            cursor.bytes() == s,
            s == buf@,
            cursor.at() <= s.len(),
            group_header_scan(s, 8) == Ok::<(u16, u32), SbeDecodeError>((block_length, count)),
            block_length == 162,
            header_check(s, ORDERS_TEMPLATE_ID) is None,
            count > 0,
            f == orders_item(s),
            i <= count,
            cursor.at() == item_start(f, 14, i as nat),
            items_scan(f, 14, count as nat) == items_scan(f, cursor.at(), (count - i) as nat),
            orders@.len() == i,
            forall|j: int|
                0 <= j < i ==> orders_item_at(s, item_start(f, 14, j as nat), #[trigger] orders@[j]),
        decreases count - i,
    {
        proof {
            lemma_items_step(f, 14, count as nat, i as nat);
        }
        cursor.require(ORDERS_GROUP_BLOCK_LENGTH)?;

        let price_exponent = cursor.read_i8()?;
        let qty_exponent = cursor.read_i8()?;
        let order_id = cursor.read_i64_le()?;
        let order_list_id = cursor.read_optional_i64_le()?;
        let price_mantissa = cursor.read_i64_le()?;
        let orig_qty_mantissa = cursor.read_i64_le()?;
        let executed_qty_mantissa = cursor.read_i64_le()?;
        let cummulative_quote_qty_mantissa = cursor.read_i64_le()?;
        let status = OrderStatus::from_u8(cursor.read_u8()?);
        let time_in_force = TimeInForce::from_u8(cursor.read_u8()?);
        let order_type = OrderType::from_u8(cursor.read_u8()?);
        let side = OrderSide::from_u8(cursor.read_u8()?);
        let stop_price_mantissa = cursor.read_optional_i64_le()?;

        cursor.advance(16)?;  // Skip trailing_delta + trailing_time
        let iceberg_qty_mantissa = cursor.read_optional_i64_le()?;
        let time = cursor.read_i64_le()?;
        let update_time = cursor.read_i64_le()?;
        let is_working = read_bool(&mut cursor)?;
        let working_time = cursor.read_optional_i64_le()?;
        let orig_quote_order_qty_mantissa = cursor.read_i64_le()?;

        cursor.advance(14)?;  // Skip strategy_id to working_floor
        let self_trade_prevention_mode = SelfTradePreventionMode::from_u8(cursor.read_u8()?);

        cursor.advance(28)?;  // Skip to end of fixed block

        let symbol = cursor.read_var_string8()?;
        let client_order_id = cursor.read_var_string8()?;

        orders.push(
            BinanceOrderResponse {
                price_exponent,
                qty_exponent,
                order_id,
                order_list_id,
                price_mantissa,
                orig_qty_mantissa,
                executed_qty_mantissa,
                cummulative_quote_qty_mantissa,
                status,
                time_in_force,
                order_type,
                side,
                stop_price_mantissa,
                iceberg_qty_mantissa,
                time,
                update_time,
                is_working,
                working_time,
                orig_quote_order_qty_mantissa,
                self_trade_prevention_mode,
                client_order_id,
                symbol,
            },
        );
        i = i + 1;
    }

    Ok(orders)
}

/// Scan of one entry at `q` of a cancel open orders response: a `u16` length,
/// then an embedded cancel order response of that many bytes.
pub open spec fn cancel_open_item(s: Seq<u8>) -> spec_fn(int) -> Result<int, SbeDecodeError> {
    |q: int|
        match need(s, q, 2) {
            Some(e) => Err(e),
            None => match need(s, q + 2, le_u16(s, q)) {
                Some(e) => Err(e),
                None => match cancel_order_scan(s.subrange(q + 2, q + 2 + le_u16(s, q))) {
                    Some(e) => Err(e),
                    None => Ok(q + 2 + le_u16(s, q)),
                },
            },
        }
}

/// The first error met decoding a cancel open orders response, or `None`.
pub open spec fn cancel_open_orders_scan(s: Seq<u8>) -> Option<SbeDecodeError> {
    match header_check(s, CANCEL_OPEN_ORDERS_TEMPLATE_ID) {
        Some(e) => Some(e),
        None => match group_header_scan(s, 8) {
            Err(e) => Some(e),
            Ok((_, n)) => match items_scan(cancel_open_item(s), 14, n as nat) {
                Err(e) => Some(e),
                Ok(_) => None,
            },
        },
    }
}

/// `v` holds the embedded cancel responses of `s`, in order.
pub open spec fn cancel_open_orders_decoded(s: Seq<u8>, v: Seq<BinanceCancelOrderResponse>) -> bool {
    &&& v.len() == le_u32(s, 10)
    &&& forall|i: int|
        0 <= i < v.len() ==> {
            let q = item_start(cancel_open_item(s), 14, i as nat);
            cancel_order_fields(s.subrange(q + 2, q + 2 + le_u16(s, q)), #[trigger] v[i])
        }
}

/// Decode cancel open orders response.
///
/// Each item in the response group contains an embedded cancel_order_response SBE message.
///
/// # Errors
///
/// Returns error if buffer is too short, schema mismatch, or decode error.
pub fn decode_cancel_open_orders(buf: &[u8]) -> (r: Result<Vec<BinanceCancelOrderResponse>, SbeDecodeError>)
    ensures
        match cancel_open_orders_scan(buf@) {
            Some(e) => r == Err::<Vec<BinanceCancelOrderResponse>, SbeDecodeError>(e),
            None => r matches Ok(v) && cancel_open_orders_decoded(buf@, v@),
        },
{
    let mut cursor = open_message(buf, CANCEL_OPEN_ORDERS_TEMPLATE_ID)?;
    let ghost s = buf@;

    let (_block_length, count) = cursor.read_group_header()?;

    if count == 0 {
        return Ok(Vec::new());
    }

    let ghost f = cancel_open_item(s);
    let mut responses: Vec<BinanceCancelOrderResponse> = Vec::new();

    // Each group item has block_length=0, followed by u16 length + embedded SBE message
    let mut i: u32 = 0;
    while i < count
        invariant
            cursor.bytes() == s,
            s == buf@,
            cursor.at() <= s.len(),
            group_header_scan(s, 8) == Ok::<(u16, u32), SbeDecodeError>((_block_length, count)),
            f == cancel_open_item(s),
            header_check(s, CANCEL_OPEN_ORDERS_TEMPLATE_ID) is None,
            i <= count,
            cursor.at() == item_start(f, 14, i as nat),
            items_scan(f, 14, count as nat) == items_scan(f, cursor.at(), (count - i) as nat),
            responses@.len() == i,
            forall|j: int|
                0 <= j < i ==> {
                    let q = item_start(f, 14, j as nat);
                    cancel_order_fields(s.subrange(q + 2, q + 2 + le_u16(s, q)), #[trigger] responses@[j])
                },
        decreases count - i,
    {
        proof {
            lemma_items_step(f, 14, count as nat, i as nat);
        }
        let response_len = cursor.read_u16_le()? as usize;
        let embedded_bytes = cursor.read_bytes(response_len)?;
        let cancel_response = decode_cancel_order(embedded_bytes)?;
        responses.push(cancel_response);
        i = i + 1;
    }

    Ok(responses)
}


/// Scan of one balance entry at `q`: its 17-byte block, then the asset.
pub open spec fn balance_item(s: Seq<u8>) -> spec_fn(int) -> Result<int, SbeDecodeError> {
    |q: int|
        match need(s, q, 17) {
            Some(e) => Err(e),
            None => var_string_scan(s, q + 17),
        }
}

/// The balance entry at `q` holds `b`.
pub open spec fn balance_at(s: Seq<u8>, q: int, b: BinanceBalance) -> bool {
    &&& b.exponent == byte_i8(s, q)
    &&& b.free_mantissa == le_i64(s, q + 1)
    &&& b.locked_mantissa == le_i64(s, q + 9)
    &&& b.asset@ == var_string_at(s, q + 17)
}

/// The first error met decoding an account response, or `None`.
pub open spec fn account_scan(s: Seq<u8>) -> Option<SbeDecodeError> {
    match fixed_block_check(s, ACCOUNT_TEMPLATE_ID, ACCOUNT_BLOCK_LENGTH as int) {
        Some(e) => Some(e),
        None => match group_header_scan(s, 72) {
            Err(e) => Some(e),
            Ok((bl, n)) => if bl != BALANCE_BLOCK_LENGTH {
                Some(SbeDecodeError::InvalidBlockLength { expected: BALANCE_BLOCK_LENGTH, actual: bl })
            } else {
                match items_scan(balance_item(s), 78, n as nat) {
                    Err(e) => Some(e),
                    Ok(_) => None,
                }
            },
        },
    }
}

/// The fields of an account response decoded from `s`.
pub open spec fn account_fields(s: Seq<u8>, a: BinanceAccountInfo) -> bool {
    &&& a.commission_exponent == byte_i8(s, 8)
    &&& a.maker_commission_mantissa == le_i64(s, 9)
    &&& a.taker_commission_mantissa == le_i64(s, 17)
    &&& a.buyer_commission_mantissa == le_i64(s, 25)
    &&& a.seller_commission_mantissa == le_i64(s, 33)
    &&& a.can_trade == (s[41] == 1)
    &&& a.can_withdraw == (s[42] == 1)
    &&& a.can_deposit == (s[43] == 1)
    &&& a.require_self_trade_prevention == (s[45] == 1)
    &&& a.prevent_sor == (s[46] == 1)
    &&& a.update_time == le_i64(s, 47)
    &&& a.account_type@ == AccountType::spec_from_u8(s[55]).spec_name()
    &&& a.balances@.len() == le_u32(s, 74)
    &&& forall|i: int|
        0 <= i < a.balances@.len() ==> balance_at(
            s,
            item_start(balance_item(s), 78, i as nat),
            #[trigger] a.balances@[i],
        )
}

/// Decode account information response.
///
/// # Errors
///
/// Returns error if buffer is too short, schema mismatch, or decode error.
pub fn decode_account(buf: &[u8]) -> (r: Result<BinanceAccountInfo, SbeDecodeError>)
    ensures
        match account_scan(buf@) {
            Some(e) => r == Err::<BinanceAccountInfo, SbeDecodeError>(e),
            None => r matches Ok(a) && account_fields(buf@, a),
        },
{
    let mut cursor = open_message(buf, ACCOUNT_TEMPLATE_ID)?;
    let ghost s = buf@;

    cursor.require(ACCOUNT_BLOCK_LENGTH)?;

    let commission_exponent = cursor.read_i8()?;
    let maker_commission_mantissa = cursor.read_i64_le()?;
    let taker_commission_mantissa = cursor.read_i64_le()?;
    let buyer_commission_mantissa = cursor.read_i64_le()?;
    let seller_commission_mantissa = cursor.read_i64_le()?;
    let can_trade = read_bool(&mut cursor)?;
    let can_withdraw = read_bool(&mut cursor)?;
    let can_deposit = read_bool(&mut cursor)?;
    cursor.advance(1)?;  // Skip brokered
    let require_self_trade_prevention = read_bool(&mut cursor)?;
    let prevent_sor = read_bool(&mut cursor)?;
    let update_time = cursor.read_i64_le()?;
    let account_type_enum = AccountType::from_u8(cursor.read_u8()?);
    cursor.advance(16)?;  // Skip tradeGroupId + uid

    let account_type = account_type_enum.name();

    let (block_length, balance_count) = cursor.read_group_header()?;

    if block_length != BALANCE_BLOCK_LENGTH {
        return Err(
            SbeDecodeError::InvalidBlockLength { expected: BALANCE_BLOCK_LENGTH, actual: block_length },
        );
    }

    let ghost f = balance_item(s);
    let mut balances: Vec<BinanceBalance> = Vec::new();
    let mut i: u32 = 0;
    while i < balance_count
        invariant
            cursor.bytes() == s,
            s == buf@,
            cursor.at() <= s.len(),
            fixed_block_check(s, ACCOUNT_TEMPLATE_ID, ACCOUNT_BLOCK_LENGTH as int) is None,
            group_header_scan(s, 72) == Ok::<(u16, u32), SbeDecodeError>((block_length, balance_count)),
            block_length == BALANCE_BLOCK_LENGTH,
            f == balance_item(s),
            i <= balance_count,
            cursor.at() == item_start(f, 78, i as nat),
            items_scan(f, 78, balance_count as nat) == items_scan(
                f,
                cursor.at(),
                (balance_count - i) as nat,
            ),
            balances@.len() == i,
            forall|j: int|
                0 <= j < i ==> balance_at(s, item_start(f, 78, j as nat), #[trigger] balances@[j]),
        decreases balance_count - i,
    {
        proof {
            lemma_items_step(f, 78, balance_count as nat, i as nat);
        }
        cursor.require(block_length as usize)?;

        let exponent = cursor.read_i8()?;
        let free_mantissa = cursor.read_i64_le()?;
        let locked_mantissa = cursor.read_i64_le()?;

        let asset = cursor.read_var_string8()?;

        balances.push(BinanceBalance { asset, free_mantissa, locked_mantissa, exponent });
        i = i + 1;
    }

    Ok(
        BinanceAccountInfo {
            commission_exponent,
            maker_commission_mantissa,
            taker_commission_mantissa,
            buyer_commission_mantissa,
            seller_commission_mantissa,
            can_trade,
            can_withdraw,
            can_deposit,
            require_self_trade_prevention,
            prevent_sor,
            update_time,
            account_type,
            balances,
        },
    )
}

/// Scan of one account trade entry at `q`: its 70-byte block, then the
/// symbol and the commission asset.
pub open spec fn account_trade_item(s: Seq<u8>) -> spec_fn(int) -> Result<int, SbeDecodeError> {
    |q: int|
        match need(s, q, 70) {
            Some(e) => Err(e),
            None => match var_string_scan(s, q + 70) {
                Err(e) => Err(e),
                Ok(q1) => var_string_scan(s, q1),
            },
        }
}

/// The account trade entry at `q` holds `t`.
pub open spec fn account_trade_at(s: Seq<u8>, q: int, t: BinanceAccountTrade) -> bool {
    &&& t.price_exponent == byte_i8(s, q)
    &&& t.qty_exponent == byte_i8(s, q + 1)
    &&& t.commission_exponent == byte_i8(s, q + 2)
    &&& t.id == le_i64(s, q + 3)
    &&& t.order_id == le_i64(s, q + 11)
    &&& t.order_list_id == opt_i64(s, q + 19)
    &&& t.price_mantissa == le_i64(s, q + 27)
    &&& t.qty_mantissa == le_i64(s, q + 35)
    &&& t.quote_qty_mantissa == le_i64(s, q + 43)
    &&& t.commission_mantissa == le_i64(s, q + 51)
    &&& t.time == le_i64(s, q + 59)
    &&& t.is_buyer == (s[q + 67] == 1)
    &&& t.is_maker == (s[q + 68] == 1)
    &&& t.is_best_match == (s[q + 69] == 1)
    &&& t.symbol@ == var_string_at(s, q + 70)
    &&& t.commission_asset@ == var_string_at(s, var_string_end(s, q + 70))
}

/// The first error met decoding an account trades response, or `None`.
pub open spec fn account_trades_scan(s: Seq<u8>) -> Option<SbeDecodeError> {
    match header_check(s, ACCOUNT_TRADES_TEMPLATE_ID) {
        Some(e) => Some(e),
        None => match group_header_scan(s, 8) {
            Err(e) => Some(e),
            Ok((bl, n)) => if bl != ACCOUNT_TRADE_BLOCK_LENGTH {
                Some(
                    SbeDecodeError::InvalidBlockLength {
                        expected: ACCOUNT_TRADE_BLOCK_LENGTH,
                        actual: bl,
                    },
                )
            } else {
                match items_scan(account_trade_item(s), 14, n as nat) {
                    Err(e) => Some(e),
                    Ok(_) => None,
                }
            },
        },
    }
}

/// `v` holds the trades of the account trades response `s`, in order.
pub open spec fn account_trades_decoded(s: Seq<u8>, v: Seq<BinanceAccountTrade>) -> bool {
    &&& v.len() == le_u32(s, 10)
    &&& forall|i: int|
        0 <= i < v.len() ==> account_trade_at(
            s,
            item_start(account_trade_item(s), 14, i as nat),
            #[trigger] v[i],
        )
}

/// Decode account trades response.
///
/// # Errors
///
/// Returns error if buffer is too short, schema mismatch, or decode error.
pub fn decode_account_trades(buf: &[u8]) -> (r: Result<Vec<BinanceAccountTrade>, SbeDecodeError>)
    ensures
        match account_trades_scan(buf@) {
            Some(e) => r == Err::<Vec<BinanceAccountTrade>, SbeDecodeError>(e),
            None => r matches Ok(v) && account_trades_decoded(buf@, v@),
        },
{
    let mut cursor = open_message(buf, ACCOUNT_TRADES_TEMPLATE_ID)?;
    let ghost s = buf@;

    let (block_length, trade_count) = cursor.read_group_header()?;

    if block_length != ACCOUNT_TRADE_BLOCK_LENGTH {
        return Err(
            SbeDecodeError::InvalidBlockLength {
                expected: ACCOUNT_TRADE_BLOCK_LENGTH,
                actual: block_length,
            },
        );
    }

    let ghost f = account_trade_item(s);
    let mut trades: Vec<BinanceAccountTrade> = Vec::new();
    let mut i: u32 = 0;
    while i < trade_count
        invariant
            cursor.bytes() == s,
            s == buf@,
            cursor.at() <= s.len(),
            header_check(s, ACCOUNT_TRADES_TEMPLATE_ID) is None,
            group_header_scan(s, 8) == Ok::<(u16, u32), SbeDecodeError>((block_length, trade_count)),
            block_length == ACCOUNT_TRADE_BLOCK_LENGTH,
            f == account_trade_item(s),
            i <= trade_count,
            cursor.at() == item_start(f, 14, i as nat),
            items_scan(f, 14, trade_count as nat) == items_scan(
                f,
                cursor.at(),
                (trade_count - i) as nat,
            ),
            trades@.len() == i,
            forall|j: int|
                0 <= j < i ==> account_trade_at(s, item_start(f, 14, j as nat), #[trigger] trades@[j]),
        decreases trade_count - i,
    {
        proof {
            lemma_items_step(f, 14, trade_count as nat, i as nat);
        }
        cursor.require(block_length as usize)?;

        let price_exponent = cursor.read_i8()?;
        let qty_exponent = cursor.read_i8()?;
        let commission_exponent = cursor.read_i8()?;
        let id = cursor.read_i64_le()?;
        let order_id = cursor.read_i64_le()?;
        let order_list_id = cursor.read_optional_i64_le()?;
        let price_mantissa = cursor.read_i64_le()?;
        let qty_mantissa = cursor.read_i64_le()?;
        let quote_qty_mantissa = cursor.read_i64_le()?;
        let commission_mantissa = cursor.read_i64_le()?;
        let time = cursor.read_i64_le()?;
        let is_buyer = read_bool(&mut cursor)?;
        let is_maker = read_bool(&mut cursor)?;
        let is_best_match = read_bool(&mut cursor)?;

        let symbol = cursor.read_var_string8()?;
        let commission_asset = cursor.read_var_string8()?;

        trades.push(
            BinanceAccountTrade {
                price_exponent,
                qty_exponent,
                commission_exponent,
                id,
                order_id,
                order_list_id,
                price_mantissa,
                qty_mantissa,
                quote_qty_mantissa,
                commission_mantissa,
                time,
                is_buyer,
                is_maker,
                is_best_match,
                symbol,
                commission_asset,
            },
        );
        i = i + 1;
    }

    Ok(trades)
}

} // verus!
