//! Architect HTTP payloads turned into report fields.

use nautilus_adapters::architect::common::enums::{
    ArchitectCandleWidth, ArchitectOrderSide, ArchitectOrderStatus, ArchitectTimeInForce,
};
use nautilus_adapters::architect::http::models::{
    ArchitectBalance, ArchitectBalancesResponse, ArchitectOpenOrder,
};
use nautilus_adapters::architect::http::parse::{
    candle_width_to_bar_spec, parse_account_balances, parse_fill_sides, parse_order_status_fields,
    parse_fill_ts_event, parse_perp_margins, parse_position_side, parse_position_ts_last,
    perp_base_code, position_avg_px_open,
};
use nautilus_adapters::model::enums::{
    BarAggregation, LiquiditySide, OrderSide, OrderStatus, OrderType, PositionSideSpecified,
    PriceType, TimeInForce,
};

fn balance(symbol: &str, amount: &str) -> ArchitectBalance {
    ArchitectBalance { symbol: symbol.to_string(), amount: amount.to_string() }
}

fn open_order(tag: Option<&str>, xq: i64) -> ArchitectOpenOrder {
    ArchitectOpenOrder {
        tn: 1,
        ts: 1_700_000_000,
        d: ArchitectOrderSide::Sell,
        o: ArchitectOrderStatus::PartiallyFilled,
        oid: "O-123".to_string(),
        p: "101.25".to_string(),
        q: 10,
        rq: 10 - xq,
        s: "EURUSD-PERP".to_string(),
        tif: ArchitectTimeInForce::Ioc,
        u: "user-1".to_string(),
        xq,
        tag: tag.map(str::to_string),
    }
}

#[test]
fn test_candle_width_to_bar_spec() {
    let cases = [
        (ArchitectCandleWidth::Seconds1, 1, BarAggregation::Second),
        (ArchitectCandleWidth::Seconds5, 5, BarAggregation::Second),
        (ArchitectCandleWidth::Minutes1, 1, BarAggregation::Minute),
        (ArchitectCandleWidth::Minutes5, 5, BarAggregation::Minute),
        (ArchitectCandleWidth::Minutes15, 15, BarAggregation::Minute),
        (ArchitectCandleWidth::Hours1, 1, BarAggregation::Hour),
        (ArchitectCandleWidth::Days1, 1, BarAggregation::Day),
    ];
    for (width, step, aggregation) in cases {
        let spec = candle_width_to_bar_spec(width);
        assert_eq!(spec.step, step);
        assert_eq!(spec.aggregation, aggregation);
        assert_eq!(spec.price_type, PriceType::Last);
    }
}

#[test]
fn test_perp_base_code() {
    assert_eq!(perp_base_code("EURUSD-PERP"), "EURUSD");
    assert_eq!(perp_base_code("XAU-USD-PERP"), "XAU");
    assert_eq!(perp_base_code("GBPUSD"), "GBPUSD");
    assert_eq!(perp_base_code(""), "");
    assert_eq!(perp_base_code("-PERP"), "");
    assert_eq!(perp_base_code("ÉUR-PERP"), "ÉUR");
}

#[test]
fn test_parse_fill_sides() {
    assert_eq!(parse_fill_sides(5, true), (OrderSide::Buy, 5, LiquiditySide::Taker));
    assert_eq!(parse_fill_sides(-7, false), (OrderSide::Sell, 7, LiquiditySide::Maker));
    assert_eq!(parse_fill_sides(0, false), (OrderSide::Buy, 0, LiquiditySide::Maker));
    assert_eq!(
        parse_fill_sides(i64::MIN, true),
        (OrderSide::Sell, 9_223_372_036_854_775_808, LiquiditySide::Taker)
    );
}

#[test]
fn test_parse_position_side() {
    assert_eq!(parse_position_side(3), (PositionSideSpecified::Long, 3));
    assert_eq!(parse_position_side(-4), (PositionSideSpecified::Short, 4));
    assert_eq!(parse_position_side(0), (PositionSideSpecified::Flat, 0));
}

#[test]
fn test_parse_account_balances_skips_blank_symbols() {
    let response = ArchitectBalancesResponse {
        balances: vec![balance(" USD ", "1000.5"), balance("   ", "3"), balance("EUR", "20")],
    };
    let balances = parse_account_balances(&response);
    assert_eq!(balances.len(), 2);
    assert_eq!(balances[0].currency, "USD");
    assert_eq!(balances[0].amount, "1000.5");
    assert_eq!(balances[1].currency, "EUR");
    assert_eq!(balances[1].amount, "20");
}

#[test]
fn test_parse_account_balances_defaults_to_zero_usd() {
    let empty = ArchitectBalancesResponse { balances: vec![] };
    let balances = parse_account_balances(&empty);
    assert_eq!(balances.len(), 1);
    assert_eq!(balances[0].currency, "USD");
    assert_eq!(balances[0].amount, "0");

    let blank = ArchitectBalancesResponse { balances: vec![balance("\t\n", "5")] };
    let balances = parse_account_balances(&blank);
    assert_eq!(balances.len(), 1);
    assert_eq!(balances[0].currency, "USD");
    assert_eq!(balances[0].amount, "0");
}

#[test]
fn test_parse_order_status_fields() {
    let fields = parse_order_status_fields(&open_order(Some("client-7"), 4)).unwrap();
    assert_eq!(fields.venue_order_id, "O-123");
    assert_eq!(fields.client_order_id.as_deref(), Some("client-7"));
    assert_eq!(fields.order_side, OrderSide::Sell);
    assert_eq!(fields.order_type, OrderType::Limit);
    assert_eq!(fields.time_in_force, TimeInForce::Ioc);
    assert_eq!(fields.order_status, OrderStatus::PartiallyFilled);
    assert_eq!(fields.quantity, 10);
    assert_eq!(fields.filled_qty, 4);
    assert_eq!(fields.price, "101.25");
    assert!(fields.has_avg_px);
    assert_eq!(fields.ts_event, 1_700_000_000_000_000_000);
}

#[test]
fn test_parse_order_status_fields_without_fills_or_tag() {
    let fields = parse_order_status_fields(&open_order(None, 0)).unwrap();
    assert_eq!(fields.client_order_id, None);
    assert!(!fields.has_avg_px);

    let fields = parse_order_status_fields(&open_order(Some(""), 0)).unwrap();
    assert_eq!(fields.client_order_id, None);
}

fn decimal(parts: (i128, u32)) -> rust_decimal::Decimal {
    rust_decimal::Decimal::from_i128_with_scale(parts.0, parts.1)
}

fn parse_decimal(text: &str) -> rust_decimal::Decimal {
    <rust_decimal::Decimal as std::str::FromStr>::from_str(text).unwrap()
}

#[test]
fn test_position_avg_px_open() {
    let avg = position_avg_px_open("300.5", -2).unwrap().unwrap();
    assert_eq!(decimal(avg), parse_decimal("150.25"));

    let avg = position_avg_px_open("1000", 8).unwrap().unwrap();
    assert_eq!(decimal(avg), parse_decimal("125"));

    let avg = position_avg_px_open("10", 3).unwrap().unwrap();
    assert_eq!(decimal(avg), parse_decimal("10") / parse_decimal("3"));
}

#[test]
fn test_position_avg_px_open_flat_or_invalid() {
    assert_eq!(position_avg_px_open("not-a-number", 0), Ok(None));
    assert_eq!(position_avg_px_open("123.4", 0), Ok(None));
    assert_eq!(
        position_avg_px_open("not-a-number", 5),
        Err("Failed to parse open_notional".to_string())
    );
}

#[test]
fn test_parse_order_status_fields_timestamp_out_of_range() {
    let mut order = open_order(None, 0);
    order.ts = -1;
    assert_eq!(
        parse_order_status_fields(&order).unwrap_err(),
        "Failed to convert order timestamp to nanoseconds"
    );
    order.ts = (u64::MAX / 1_000_000_000) as i64 + 1;
    assert!(parse_order_status_fields(&order).is_err());
    order.ts = (u64::MAX / 1_000_000_000) as i64;
    assert_eq!(
        parse_order_status_fields(&order).unwrap().ts_event,
        (u64::MAX / 1_000_000_000) * 1_000_000_000
    );
}

#[test]
fn test_report_timestamps() {
    assert_eq!(parse_position_ts_last(Some(1_700_000_000_000_000_000)), Ok(1_700_000_000_000_000_000));
    assert_eq!(
        parse_position_ts_last(None),
        Err("Failed to convert position timestamp to nanoseconds".to_string())
    );
    assert_eq!(parse_fill_ts_event(Some(42)), 42);
    assert_eq!(parse_fill_ts_event(Some(-42)), 42);
    assert_eq!(parse_fill_ts_event(None), 0);
}

#[test]
fn test_parse_perp_instrument() {
    // BTC-PERP with initial margin 0.01 and maintenance margin 0.005
    assert_eq!(perp_base_code("BTC-PERP"), "BTC");
    let (init, maint) = parse_perp_margins("0.01", "0.005").unwrap();
    assert_eq!(decimal(init), parse_decimal("0.01"));
    assert_eq!(decimal(maint), parse_decimal("0.005"));
}

#[test]
fn test_parse_perp_margins_errors() {
    assert_eq!(
        parse_perp_margins("abc", "0.005").unwrap_err(),
        "Failed to parse initial_margin_pct"
    );
    assert_eq!(
        parse_perp_margins("abc", "xyz").unwrap_err(),
        "Failed to parse initial_margin_pct"
    );
    assert_eq!(
        parse_perp_margins("0.01", "xyz").unwrap_err(),
        "Failed to parse maintenance_margin_pct"
    );
}
