//! The decisions of turning Architect HTTP payloads into domain reports:
//! bar specifications, instrument symbols, account balances, the sides and
//! sizes of fills, positions and orders, and the average entry price of a
//! position.
//!
//! Prices, fees and balance amounts stay decimal text here: the domain model
//! holds them as floating-point-derived values, built outside this crate.

use vstd::prelude::*;
use vstd::string::StringSliceAdditionalSpecFns;

use super::models::{ArchitectBalance, ArchitectBalancesResponse, ArchitectOpenOrder};
use crate::architect::common::enums::{
    ArchitectCandleWidth, ArchitectOrderSide, ArchitectOrderStatus, ArchitectTimeInForce,
};
use crate::model::data::BarSpecification;
use crate::model::enums::{
    BarAggregation, LiquiditySide, OrderSide, OrderStatus, OrderType, PositionSideSpecified, PriceType,
    TimeInForce,
};
use vstd::std_specs::convert::FromSpec;
use crate::text::{trim_str, trimmed};

verus! {

/// The bar specification of each candle width: its step and aggregation,
/// always built from last prices.
pub open spec fn spec_bar_spec(width: ArchitectCandleWidth) -> BarSpecification {
    match width {
        ArchitectCandleWidth::Seconds1 => BarSpecification { step: 1, aggregation: BarAggregation::Second, price_type: PriceType::Last },
        ArchitectCandleWidth::Seconds5 => BarSpecification { step: 5, aggregation: BarAggregation::Second, price_type: PriceType::Last },
        ArchitectCandleWidth::Minutes1 => BarSpecification { step: 1, aggregation: BarAggregation::Minute, price_type: PriceType::Last },
        ArchitectCandleWidth::Minutes5 => BarSpecification { step: 5, aggregation: BarAggregation::Minute, price_type: PriceType::Last },
        ArchitectCandleWidth::Minutes15 => BarSpecification { step: 15, aggregation: BarAggregation::Minute, price_type: PriceType::Last },
        ArchitectCandleWidth::Hours1 => BarSpecification { step: 1, aggregation: BarAggregation::Hour, price_type: PriceType::Last },
        ArchitectCandleWidth::Days1 => BarSpecification { step: 1, aggregation: BarAggregation::Day, price_type: PriceType::Last },
    }
}

/// Converts an Architect candle width to a bar specification.
#[must_use]
pub fn candle_width_to_bar_spec(width: ArchitectCandleWidth) -> (r: BarSpecification)
    ensures
        r == spec_bar_spec(width),
{
    match width {
        ArchitectCandleWidth::Seconds1 => BarSpecification::new(1, BarAggregation::Second, PriceType::Last),
        ArchitectCandleWidth::Seconds5 => BarSpecification::new(5, BarAggregation::Second, PriceType::Last),
        ArchitectCandleWidth::Minutes1 => BarSpecification::new(1, BarAggregation::Minute, PriceType::Last),
        ArchitectCandleWidth::Minutes5 => BarSpecification::new(5, BarAggregation::Minute, PriceType::Last),
        ArchitectCandleWidth::Minutes15 => BarSpecification::new(15, BarAggregation::Minute, PriceType::Last),
        ArchitectCandleWidth::Hours1 => BarSpecification::new(1, BarAggregation::Hour, PriceType::Last),
        ArchitectCandleWidth::Days1 => BarSpecification::new(1, BarAggregation::Day, PriceType::Last),
    }
}

/// The index of the first `-` byte in `b`, or its length when there is none.
pub open spec fn first_dash(b: Seq<u8>) -> int
    decreases b.len(),
{
    if b.len() == 0 {
        0
    } else if b[0] == 0x2d {
        0
    } else {
        1 + first_dash(b.drop_first())
    }
}

proof fn lemma_first_dash(b: Seq<u8>, j: int)
    requires
        0 <= j <= b.len(),
        forall|k: int| 0 <= k < j ==> b[k] != 0x2d,
        j == b.len() || b[j] == 0x2d,
    ensures
        first_dash(b) == j,
    decreases b.len(),
{
    if b.len() > 0 && j > 0 {
        lemma_first_dash(b.drop_first(), j - 1);
    }
}

/// The base currency code of a perpetual symbol (`{BASE}-PERP`): the text
/// before the first `-`, or the whole symbol when it has none.
pub fn perp_base_code(symbol: &str) -> (r: &str)
    ensures
        r.spec_bytes() == symbol.spec_bytes().subrange(0, first_dash(symbol.spec_bytes())),
{
    broadcast use vstd::utf8::encode_utf8_valid_utf8;

    let bytes = symbol.as_bytes();
    let mut j: usize = 0;
    while j < bytes.len() && bytes[j] != 0x2d
        invariant
            bytes@ == symbol.spec_bytes(),
            j <= bytes@.len(),
            forall|k: int| 0 <= k < j ==> bytes@[k] != 0x2d,
        decreases bytes@.len() - j,
    {
        j = j + 1;
    }
    proof {
        lemma_first_dash(bytes@, j as int);
        if j < bytes@.len() {
            vstd::utf8::is_char_boundary_iff_not_is_continuation_byte(bytes@, j as int);
        } else {
            vstd::utf8::is_char_boundary_start_end_of_seq(bytes@);
        }
    }
    let (base, _rest) = symbol.split_at(j);
    base
}

/// Side, size and liquidity of an Architect fill. The venue reports no side,
/// so it is taken from the sign of the quantity, and the size is its magnitude.
pub fn parse_fill_sides(quantity: i64, is_taker: bool) -> (r: (OrderSide, u64, LiquiditySide))
    ensures
        r.0 == (if quantity >= 0 {
            OrderSide::Buy
        } else {
            OrderSide::Sell
        }),
        r.1 == (if quantity >= 0 {
            quantity as int
        } else {
            -(quantity as int)
        }),
        r.2 == (if is_taker {
            LiquiditySide::Taker
        } else {
            LiquiditySide::Maker
        }),
{
    let order_side = if quantity >= 0 {
        OrderSide::Buy
    } else {
        OrderSide::Sell
    };
    let last_qty = unsigned_abs(quantity);
    let liquidity_side = if is_taker {
        LiquiditySide::Taker
    } else {
        LiquiditySide::Maker
    };
    (order_side, last_qty, liquidity_side)
}

/// The magnitude of `v`.
pub open spec fn unsigned_abs_spec(v: i64) -> int {
    if v >= 0 {
        v as int
    } else {
        -(v as int)
    }
}

/// The magnitude of `v`, as `i64::unsigned_abs` computes it.
fn unsigned_abs(v: i64) -> (r: u64)
    ensures
        r == unsigned_abs_spec(v),
{
    if v >= 0 {
        v as u64
    } else if v == i64::MIN {
        0x8000_0000_0000_0000u64
    } else {
        (-v) as u64
    }
}

/// Side and size of an Architect position from its signed open quantity:
/// long when positive, short when negative, flat with size zero otherwise.
pub fn parse_position_side(open_quantity: i64) -> (r: (PositionSideSpecified, u64))
    ensures
        open_quantity > 0 ==> r == (PositionSideSpecified::Long, open_quantity as u64),
        open_quantity < 0 ==> r == (PositionSideSpecified::Short, (-(open_quantity as int)) as u64),
        open_quantity == 0 ==> r == (PositionSideSpecified::Flat, 0u64),
{
    if open_quantity > 0 {
        (PositionSideSpecified::Long, open_quantity as u64)
    } else if open_quantity < 0 {
        (PositionSideSpecified::Short, unsigned_abs(open_quantity))
    } else {
        (PositionSideSpecified::Flat, 0)
    }
}

/// Whether an order timestamp in Unix epoch seconds has a nanosecond time.
pub open spec fn order_ts_convertible(ts: i64) -> bool {
    0 <= ts && ts * 1_000_000_000 <= u64::MAX
}

/// The event time of an open order in nanoseconds, or `None` when it has
/// none: Architect timestamps are in Unix epoch seconds.
fn parse_order_ts_event(ts: i64) -> (r: Option<u64>)
    ensures
        order_ts_convertible(ts) ==> r == Some((ts * 1_000_000_000) as u64),
        !order_ts_convertible(ts) ==> r is None,
{
    if ts < 0 {
        None
    } else {
        (ts as u64).checked_mul(1_000_000_000)
    }
}

/// The time of a report in nanoseconds from the venue timestamp's nanosecond
/// count, which a timestamp outside the `i64` nanosecond range lacks.
pub open spec fn spec_report_ts(nanos: Option<i64>) -> Option<u64> {
    match nanos {
        Some(n) => Some(unsigned_abs_spec(n) as u64),
        None => None,
    }
}

/// The last-update time of a position in nanoseconds.
///
/// # Errors
///
/// Returns an error when the timestamp has no nanosecond count.
pub fn parse_position_ts_last(nanos: Option<i64>) -> (r: Result<u64, String>)
    ensures
        match spec_report_ts(nanos) {
            Some(t) => r == Ok::<u64, String>(t),
            None => r matches Err(m) && m@ == "Failed to convert position timestamp to nanoseconds"@,
        },
{
    match nanos {
        Some(n) => Ok(unsigned_abs(n)),
        None => Err("Failed to convert position timestamp to nanoseconds".to_owned()),
    }
}

/// The event time of a fill in nanoseconds; a timestamp without a nanosecond
/// count is taken as the epoch.
pub fn parse_fill_ts_event(nanos: Option<i64>) -> (r: u64)
    ensures
        r == match spec_report_ts(nanos) {
            Some(t) => t,
            None => 0,
        },
{
    match nanos {
        Some(n) => unsigned_abs(n),
        None => 0,
    }
}

/// The client order id of an open order: its tag, when present and not empty.
fn parse_order_client_id(tag: &Option<String>) -> (r: Option<String>)
    ensures
        r matches Some(id) ==> tag matches Some(t) && t@.len() > 0 && id@ == t@,
        r is None ==> (tag matches Some(t) ==> t@.len() == 0),
{
    match tag {
        Some(t) => {
            if t.as_str().is_empty() {
                None
            } else {
                Some(t.clone())
            }
        },
        None => None,
    }
}

/// A balance of the account state: a currency code and its amount as the
/// venue reports it. The whole amount is free; nothing is locked.
#[derive(Clone, Debug)]
pub struct AccountBalanceEntry {
    /// Currency code.
    pub currency: String,
    /// Amount, as decimal text.
    pub amount: String,
}

/// The balances with a symbol that is not blank, in order, each with its
/// trimmed symbol and its amount.
pub open spec fn spec_reported_balances(b: Seq<ArchitectBalance>) -> Seq<(Seq<char>, Seq<char>)>
    decreases b.len(),
{
    if b.len() == 0 {
        seq![]
    } else {
        let before = spec_reported_balances(b.drop_last());
        let code = trimmed(b.last().symbol@);
        if code.len() == 0 {
            before
        } else {
            before.push((code, b.last().amount@))
        }
    }
}

/// The balances of the account state: the reported ones, or a single zero
/// USD balance when none is reported.
pub open spec fn spec_account_balances(b: Seq<ArchitectBalance>) -> Seq<(Seq<char>, Seq<char>)> {
    let reported = spec_reported_balances(b);
    if reported.len() == 0 {
        seq![("USD"@, "0"@)]
    } else {
        reported
    }
}

/// The balances of an Architect balances response as account balances.
///
/// Balances whose symbol is blank are skipped; when no balance remains the
/// account holds a single zero USD balance.
pub fn parse_account_balances(response: &ArchitectBalancesResponse) -> (r: Vec<AccountBalanceEntry>)
    ensures
        r@.map_values(|e: AccountBalanceEntry| (e.currency@, e.amount@)) == spec_account_balances(
            response.balances@,
        ),
{
    let balances = &response.balances;
    let mut out: Vec<AccountBalanceEntry> = Vec::new();
    let mut i: usize = 0;
    while i < balances.len()
        invariant
            i <= balances@.len(),
            out@.map_values(|e: AccountBalanceEntry| (e.currency@, e.amount@)) == spec_reported_balances(
                balances@.subrange(0, i as int),
            ),
        decreases balances@.len() - i,
    {
        let balance = &balances[i];
        let symbol = trim_str(balance.symbol.as_str());
        proof {
            assert(balances@.subrange(0, i + 1).drop_last() =~= balances@.subrange(0, i as int));
            assert(balances@.subrange(0, i + 1).last() == balances@[i as int]);
        }
        if !symbol.is_empty() {
            out.push(AccountBalanceEntry { currency: symbol.to_owned(), amount: balance.amount.clone() });
        }
        proof {
            assert(out@.map_values(|e: AccountBalanceEntry| (e.currency@, e.amount@)) =~= spec_reported_balances(
                balances@.subrange(0, i + 1),
            ));
        }
        i = i + 1;
    }
    proof {
        assert(balances@.subrange(0, balances@.len() as int) =~= balances@);
    }
    if out.len() == 0 {
        out.push(AccountBalanceEntry { currency: "USD".to_owned(), amount: "0".to_owned() });
        proof {
            assert(out@.map_values(|e: AccountBalanceEntry| (e.currency@, e.amount@)) =~= seq![("USD"@, "0"@)]);
        }
    }
    out
}

/// What an open order reports of itself, before prices and quantities are
/// scaled to the instrument's precision.
#[derive(Clone, Debug)]
pub struct OrderStatusFields {
    /// Venue order ID.
    pub venue_order_id: String,
    /// Client order ID, from the order's tag.
    pub client_order_id: Option<String>,
    /// Order side.
    pub order_side: OrderSide,
    /// Order type: Architect only supports limit orders.
    pub order_type: OrderType,
    /// Time in force.
    pub time_in_force: TimeInForce,
    /// Order status.
    pub order_status: OrderStatus,
    /// Order quantity, in contracts.
    pub quantity: i64,
    /// Filled quantity, in contracts.
    pub filled_qty: i64,
    /// Limit price, as decimal text.
    pub price: String,
    /// Whether the order has fills, so that its average price is its limit price.
    pub has_avg_px: bool,
    /// Event and last-update time in nanoseconds.
    pub ts_event: u64,
}

/// The status fields of an Architect open order.
///
/// # Errors
///
/// Returns an error when the order's timestamp has no nanosecond time.
pub fn parse_order_status_fields(order: &ArchitectOpenOrder) -> (res: Result<OrderStatusFields, String>)
    ensures
        match res {
            Err(m) => !order_ts_convertible(order.ts) && m@
                == "Failed to convert order timestamp to nanoseconds"@,
            Ok(r) => {
                &&& order_ts_convertible(order.ts)
                &&& r.venue_order_id@ == order.oid@
                &&& r.client_order_id matches Some(id) ==> order.tag matches Some(t) && t@.len() > 0
                    && id@ == t@
                &&& r.client_order_id is None ==> (order.tag matches Some(t) ==> t@.len() == 0)
                &&& r.order_side == <OrderSide as FromSpec<ArchitectOrderSide>>::from_spec(order.d)
                &&& r.order_type == OrderType::Limit
                &&& r.time_in_force == <TimeInForce as FromSpec<ArchitectTimeInForce>>::from_spec(order.tif)
                &&& r.order_status == <OrderStatus as FromSpec<ArchitectOrderStatus>>::from_spec(order.o)
                &&& r.quantity == order.q
                &&& r.filled_qty == order.xq
                &&& r.price@ == order.p@
                &&& r.has_avg_px == (order.xq > 0)
                &&& r.ts_event == order.ts * 1_000_000_000
            },
        },
{
    let ts_event = match parse_order_ts_event(order.ts) {
        Some(t) => t,
        None => return Err("Failed to convert order timestamp to nanoseconds".to_owned()),
    };
    Ok(OrderStatusFields {
        venue_order_id: order.oid.clone(),
        client_order_id: parse_order_client_id(&order.tag),
        order_side: OrderSide::from(order.d),
        order_type: OrderType::Limit,
        time_in_force: TimeInForce::from(order.tif),
        order_status: OrderStatus::from(order.o),
        quantity: order.q,
        filled_qty: order.xq,
        price: order.p.clone(),
        has_avg_px: order.xq > 0,
        ts_event,
    })
}

/// The mantissa and scale of the decimal that `s` denotes, as
/// `rust_decimal::Decimal::from_str` reads it, or `None` when it reads none.
pub uninterp spec fn parsed_decimal(s: Seq<char>) -> Option<(i128, u32)>;

/// The mantissa and scale of `mantissa * 10^-scale` divided by `divisor`, as
/// `rust_decimal::Decimal` division computes it.
pub uninterp spec fn decimal_quotient(mantissa: i128, scale: u32, divisor: u64) -> (i128, u32);

/// The largest magnitude of a `rust_decimal::Decimal` mantissa (96 bits).
pub open spec fn decimal_mantissa_max() -> int {
    0xFFFF_FFFF_FFFF_FFFF_FFFF_FFFF
}

/// `<rust_decimal::Decimal as FromStr>::from_str`: the mantissa and scale of
/// the parsed decimal, or `None` when the text is refused. Every decimal has a
/// mantissa of at most 96 bits and a scale of at most 28.
#[verifier::external_body]
fn decimal_from_str(s: &str) -> (r: Option<(i128, u32)>)
    ensures
        r == parsed_decimal(s@),
        r matches Some((m, e)) ==> -decimal_mantissa_max() <= m <= decimal_mantissa_max() && e <= 28,
{
    match <rust_decimal::Decimal as core::str::FromStr>::from_str(s) {
        Ok(d) => Some((d.mantissa(), d.scale())),
        Err(_) => None,
    }
}

/// `rust_decimal::Decimal` division of the decimal with `mantissa` and `scale`
/// by the whole number `divisor`. A divisor of at least one keeps the quotient
/// within the dividend's magnitude, so the division neither overflows nor
/// divides by zero; the quotient is again a decimal.
#[verifier::external_body]
fn decimal_div_count(mantissa: i128, scale: u32, divisor: u64) -> (r: (i128, u32))
    requires
        divisor > 0,
        -decimal_mantissa_max() <= mantissa <= decimal_mantissa_max(),
        scale <= 28,
    ensures
        r == decimal_quotient(mantissa, scale, divisor),
        -decimal_mantissa_max() <= r.0 <= decimal_mantissa_max() && r.1 <= 28,
{
    let q = rust_decimal::Decimal::from_i128_with_scale(mantissa, scale) / rust_decimal::Decimal::from(
        divisor,
    );
    (q.mantissa(), q.scale())
}

/// The average entry price of an Architect position, as a decimal mantissa
/// and scale: its open notional divided by the size of its open quantity.
/// A flat position has none.
///
/// # Errors
///
/// Returns an error when the position is open and its notional is not a
/// decimal number.
pub fn position_avg_px_open(open_notional: &str, open_quantity: i64) -> (r: Result<Option<(i128, u32)>, String>)
    requires
        open_quantity != i64::MIN,
    ensures
        open_quantity == 0 ==> r == Ok::<Option<(i128, u32)>, String>(None),
        open_quantity != 0 ==> match parsed_decimal(open_notional@) {
            None => r matches Err(m) && m@ == "Failed to parse open_notional"@,
            Some((m, e)) => r == Ok::<Option<(i128, u32)>, String>(
                Some(decimal_quotient(m, e, unsigned_abs_spec(open_quantity) as u64)),
            ),
        },
{
    if open_quantity == 0 {
        return Ok(None);
    }
    match decimal_from_str(open_notional) {
        None => Err("Failed to parse open_notional".to_owned()),
        Some((m, e)) => Ok(Some(decimal_div_count(m, e, unsigned_abs(open_quantity)))),
    }
}

/// The initial and maintenance margins of an Architect perpetual, as decimal
/// mantissas and scales, parsed from their percentage texts in that order.
///
/// # Errors
///
/// Returns an error naming the first field whose text is not a decimal number.
pub fn parse_perp_margins(initial_margin_pct: &str, maintenance_margin_pct: &str) -> (r: Result<
    ((i128, u32), (i128, u32)),
    String,
>)
    ensures
        match (parsed_decimal(initial_margin_pct@), parsed_decimal(maintenance_margin_pct@)) {
            (Some(init), Some(maint)) => r == Ok::<((i128, u32), (i128, u32)), String>((init, maint)),
            (None, _) => r matches Err(m) && m@ == "Failed to parse initial_margin_pct"@,
            (Some(_), None) => r matches Err(m) && m@ == "Failed to parse maintenance_margin_pct"@,
        },
{
    let margin_init = match decimal_from_str(initial_margin_pct) {
        Some(d) => d,
        None => return Err("Failed to parse initial_margin_pct".to_owned()),
    };
    let margin_maint = match decimal_from_str(maintenance_margin_pct) {
        Some(d) => d,
        None => return Err("Failed to parse maintenance_margin_pct".to_owned()),
    };
    Ok((margin_init, margin_maint))
}

} // verus!
