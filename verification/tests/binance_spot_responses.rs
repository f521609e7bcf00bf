//! Spot SBE responses with groups, embedded messages and malformed layouts.

use nautilus_adapters::binance::common::sbe::spot::{
    OrderSide, OrderStatus, CANCEL_OPEN_ORDERS_TEMPLATE_ID, CANCEL_ORDER_TEMPLATE_ID,
    DEPTH_TEMPLATE_ID, NEW_ORDER_FULL_TEMPLATE_ID, PING_TEMPLATE_ID, SBE_SCHEMA_ID,
    SBE_SCHEMA_VERSION, SERVER_TIME_TEMPLATE_ID, TRADES_TEMPLATE_ID,
};
use nautilus_adapters::binance::spot::http::error::SbeDecodeError;
use nautilus_adapters::binance::spot::http::parse::{
    decode_account, decode_cancel_open_orders, decode_cancel_order, decode_depth,
    decode_new_order_full, decode_order, decode_orders, decode_server_time, decode_trades,
    CANCEL_ORDER_BLOCK_LENGTH, FILLS_BLOCK_LENGTH, NEW_ORDER_FULL_BLOCK_LENGTH,
};

fn header(block_length: u16, template_id: u16) -> Vec<u8> {
    let mut buf = Vec::new();
    buf.extend_from_slice(&block_length.to_le_bytes());
    buf.extend_from_slice(&template_id.to_le_bytes());
    buf.extend_from_slice(&SBE_SCHEMA_ID.to_le_bytes());
    buf.extend_from_slice(&SBE_SCHEMA_VERSION.to_le_bytes());
    buf
}

fn group_header(buf: &mut Vec<u8>, block_length: u16, count: u32) {
    buf.extend_from_slice(&block_length.to_le_bytes());
    buf.extend_from_slice(&count.to_le_bytes());
}

fn var_string(buf: &mut Vec<u8>, s: &str) {
    buf.push(s.len() as u8);
    buf.extend_from_slice(s.as_bytes());
}

fn cancel_order_message(order_id: i64, symbol: &str) -> Vec<u8> {
    let mut buf = header(CANCEL_ORDER_BLOCK_LENGTH as u16, CANCEL_ORDER_TEMPLATE_ID);
    buf.push((-2i8) as u8); // price_exponent
    buf.push((-3i8) as u8); // qty_exponent
    buf.extend_from_slice(&order_id.to_le_bytes());
    buf.extend_from_slice(&i64::MIN.to_le_bytes()); // order_list_id (none)
    buf.extend_from_slice(&1_700_000_000_000i64.to_le_bytes()); // transact_time
    buf.extend_from_slice(&5_000i64.to_le_bytes()); // price
    buf.extend_from_slice(&7_000i64.to_le_bytes()); // orig_qty
    buf.extend_from_slice(&0i64.to_le_bytes()); // executed_qty
    buf.extend_from_slice(&0i64.to_le_bytes()); // cummulative_quote_qty
    buf.push(3); // status: canceled
    buf.push(0); // time_in_force
    buf.push(0); // order_type
    buf.push(1); // side: sell
    buf.push(0); // self_trade_prevention_mode
    while buf.len() < 8 + CANCEL_ORDER_BLOCK_LENGTH {
        buf.push(0);
    }
    var_string(&mut buf, symbol);
    var_string(&mut buf, "orig");
    var_string(&mut buf, "new");
    buf
}

#[test]
fn test_decode_new_order_full_with_fills() {
    let mut buf = header(NEW_ORDER_FULL_BLOCK_LENGTH as u16, NEW_ORDER_FULL_TEMPLATE_ID);
    let mut block = vec![0u8; NEW_ORDER_FULL_BLOCK_LENGTH];
    block[0] = (-8i8) as u8; // price_exponent
    block[1] = (-6i8) as u8; // qty_exponent
    block[2..10].copy_from_slice(&4242i64.to_le_bytes()); // order_id
    block[10..18].copy_from_slice(&i64::MIN.to_le_bytes()); // order_list_id (none)
    block[18..26].copy_from_slice(&1_700_000_000_123i64.to_le_bytes()); // transact_time
    block[26..34].copy_from_slice(&250_000i64.to_le_bytes()); // price
    block[34..42].copy_from_slice(&3_000i64.to_le_bytes()); // orig_qty
    block[42..50].copy_from_slice(&3_000i64.to_le_bytes()); // executed_qty
    block[50..58].copy_from_slice(&750_000i64.to_le_bytes()); // cummulative_quote_qty
    block[58] = 2; // status: filled
    block[59] = 1; // time_in_force
    block[60] = 1; // order_type
    block[61] = 0; // side: buy
    block[62..70].copy_from_slice(&i64::MIN.to_le_bytes()); // stop_price (none)
    block[86..94].copy_from_slice(&1_700_000_000_000i64.to_le_bytes()); // working_time
    buf.extend_from_slice(&block);

    // Fills group: 2 fills
    group_header(&mut buf, FILLS_BLOCK_LENGTH, 2);
    for (price, qty, trade_id, asset) in [(250_000i64, 1_000i64, 77i64, "BNB"), (250_001, 2_000, 78, "USDT")] {
        let mut fill = vec![0u8; FILLS_BLOCK_LENGTH as usize];
        fill[0] = (-8i8) as u8; // commission_exponent
        fill[2..10].copy_from_slice(&price.to_le_bytes());
        fill[10..18].copy_from_slice(&qty.to_le_bytes());
        fill[18..26].copy_from_slice(&5i64.to_le_bytes()); // commission
        fill[26..34].copy_from_slice(&trade_id.to_le_bytes());
        buf.extend_from_slice(&fill);
        var_string(&mut buf, asset);
    }

    // Prevented matches group: one 16-byte entry, skipped
    group_header(&mut buf, 16, 1);
    buf.extend_from_slice(&[0u8; 16]);

    var_string(&mut buf, "BNBUSDT");
    var_string(&mut buf, "my-order");

    let order = decode_new_order_full(&buf).unwrap();
    assert_eq!(order.price_exponent, -8);
    assert_eq!(order.qty_exponent, -6);
    assert_eq!(order.order_id, 4242);
    assert_eq!(order.order_list_id, None);
    assert_eq!(order.transact_time, 1_700_000_000_123);
    assert_eq!(order.price_mantissa, 250_000);
    assert_eq!(order.executed_qty_mantissa, 3_000);
    assert_eq!(order.status, OrderStatus::Filled);
    assert_eq!(order.side, OrderSide::Buy);
    assert_eq!(order.stop_price_mantissa, None);
    assert_eq!(order.working_time, Some(1_700_000_000_000));
    assert_eq!(order.fills.len(), 2);
    assert_eq!(order.fills[0].price_mantissa, 250_000);
    assert_eq!(order.fills[0].qty_mantissa, 1_000);
    assert_eq!(order.fills[0].commission_mantissa, 5);
    assert_eq!(order.fills[0].commission_exponent, -8);
    assert_eq!(order.fills[0].trade_id, Some(77));
    assert_eq!(order.fills[0].commission_asset, "BNB");
    assert_eq!(order.fills[1].trade_id, Some(78));
    assert_eq!(order.fills[1].commission_asset, "USDT");
    assert_eq!(order.symbol, "BNBUSDT");
    assert_eq!(order.client_order_id, "my-order");
}

#[test]
fn test_decode_new_order_full_invalid_fills_block_length() {
    let mut buf = header(NEW_ORDER_FULL_BLOCK_LENGTH as u16, NEW_ORDER_FULL_TEMPLATE_ID);
    buf.extend_from_slice(&vec![0u8; NEW_ORDER_FULL_BLOCK_LENGTH]);
    group_header(&mut buf, 40, 0);

    let err = decode_new_order_full(&buf).unwrap_err();
    assert_eq!(err, SbeDecodeError::InvalidBlockLength { expected: 42, actual: 40 });
}

#[test]
fn test_decode_cancel_open_orders_two_entries() {
    let first = cancel_order_message(11, "BTCUSDT");
    let second = cancel_order_message(12, "ETHUSDT");

    let mut buf = header(0, CANCEL_OPEN_ORDERS_TEMPLATE_ID);
    group_header(&mut buf, 0, 2);
    for message in [&first, &second] {
        buf.extend_from_slice(&(message.len() as u16).to_le_bytes());
        buf.extend_from_slice(message);
    }

    let responses = decode_cancel_open_orders(&buf).unwrap();
    assert_eq!(responses.len(), 2);
    assert_eq!(responses[0].order_id, 11);
    assert_eq!(responses[0].symbol, "BTCUSDT");
    assert_eq!(responses[0].status, OrderStatus::Canceled);
    assert_eq!(responses[0].side, OrderSide::Sell);
    assert_eq!(responses[1].order_id, 12);
    assert_eq!(responses[1].symbol, "ETHUSDT");

    // Each entry is what the cancel order decoder gives for its embedded bytes.
    assert_eq!(responses[0], decode_cancel_order(&first).unwrap());
    assert_eq!(responses[1], decode_cancel_order(&second).unwrap());
}

#[test]
fn test_decode_cancel_open_orders_empty() {
    let mut buf = header(0, CANCEL_OPEN_ORDERS_TEMPLATE_ID);
    group_header(&mut buf, 0, 0);
    assert!(decode_cancel_open_orders(&buf).unwrap().is_empty());
}

#[test]
fn test_decode_cancel_open_orders_embedded_error() {
    let mut embedded = cancel_order_message(11, "BTCUSDT");
    embedded[2..4].copy_from_slice(&PING_TEMPLATE_ID.to_le_bytes());

    let mut buf = header(0, CANCEL_OPEN_ORDERS_TEMPLATE_ID);
    group_header(&mut buf, 0, 1);
    buf.extend_from_slice(&(embedded.len() as u16).to_le_bytes());
    buf.extend_from_slice(&embedded);

    let err = decode_cancel_open_orders(&buf).unwrap_err();
    assert_eq!(err, SbeDecodeError::UnknownTemplateId(PING_TEMPLATE_ID));
}

#[test]
fn test_decode_cancel_open_orders_truncated_entry() {
    let message = cancel_order_message(11, "BTCUSDT");
    let mut buf = header(0, CANCEL_OPEN_ORDERS_TEMPLATE_ID);
    group_header(&mut buf, 0, 1);
    buf.extend_from_slice(&(message.len() as u16).to_le_bytes());
    buf.extend_from_slice(&message[..10]);

    let err = decode_cancel_open_orders(&buf).unwrap_err();
    assert_eq!(err, SbeDecodeError::BufferTooShort { expected: message.len(), actual: 10 });
}

#[test]
fn test_group_size_too_large() {
    let mut buf = header(10, DEPTH_TEMPLATE_ID);
    buf.extend_from_slice(&1i64.to_le_bytes());
    buf.push(0);
    buf.push(0);
    group_header(&mut buf, 16, 10_001);

    let err = decode_depth(&buf).unwrap_err();
    assert_eq!(err, SbeDecodeError::GroupSizeTooLarge { count: 10_001, max: 10_000 });
}

#[test]
fn test_buffer_too_short_reports_needed_and_remaining() {
    let mut buf = header(8, SERVER_TIME_TEMPLATE_ID);
    buf.extend_from_slice(&[1, 2, 3, 4]);

    let err = decode_server_time(&buf).unwrap_err();
    assert_eq!(err, SbeDecodeError::BufferTooShort { expected: 8, actual: 4 });

    let err = decode_server_time(&buf[..5]).unwrap_err();
    assert_eq!(err, SbeDecodeError::BufferTooShort { expected: 8, actual: 5 });
}

#[test]
fn test_depth_levels_follow_block_length() {
    let mut buf = header(10, DEPTH_TEMPLATE_ID);
    buf.extend_from_slice(&9i64.to_le_bytes());
    buf.push((-2i8) as u8);
    buf.push((-4i8) as u8);

    // Bids: two levels of 20 bytes, each with 4 bytes of trailing padding.
    group_header(&mut buf, 20, 2);
    for (price, qty) in [(101i64, 5i64), (100, 6)] {
        buf.extend_from_slice(&price.to_le_bytes());
        buf.extend_from_slice(&qty.to_le_bytes());
        buf.extend_from_slice(&[0xee; 4]);
    }
    group_header(&mut buf, 20, 1);
    buf.extend_from_slice(&102i64.to_le_bytes());
    buf.extend_from_slice(&7i64.to_le_bytes());
    buf.extend_from_slice(&[0xee; 4]);

    let depth = decode_depth(&buf).unwrap();
    assert_eq!(depth.bids.len(), 2);
    assert_eq!(depth.bids[1].price_mantissa, 100);
    assert_eq!(depth.bids[1].qty_mantissa, 6);
    assert_eq!(depth.asks.len(), 1);
    assert_eq!(depth.asks[0].price_mantissa, 102);
    assert_eq!(depth.asks[0].qty_mantissa, 7);
}

#[test]
fn test_depth_group_body_too_short() {
    let mut buf = header(10, DEPTH_TEMPLATE_ID);
    buf.extend_from_slice(&9i64.to_le_bytes());
    buf.push(0);
    buf.push(0);
    group_header(&mut buf, 16, 2);
    buf.extend_from_slice(&[0u8; 20]);

    let err = decode_depth(&buf).unwrap_err();
    assert_eq!(err, SbeDecodeError::BufferTooShort { expected: 32, actual: 20 });
}

#[test]
fn test_each_decoder_rejects_other_templates() {
    let buf = header(0, PING_TEMPLATE_ID);
    let unknown = SbeDecodeError::UnknownTemplateId(PING_TEMPLATE_ID);
    assert_eq!(decode_server_time(&buf).unwrap_err(), unknown);
    assert_eq!(decode_depth(&buf).unwrap_err(), unknown);
    assert_eq!(decode_trades(&buf).unwrap_err(), unknown);
    assert_eq!(decode_new_order_full(&buf).unwrap_err(), unknown);
    assert_eq!(decode_cancel_order(&buf).unwrap_err(), unknown);
    assert_eq!(decode_order(&buf).unwrap_err(), unknown);
    assert_eq!(decode_orders(&buf).unwrap_err(), unknown);
    assert_eq!(decode_cancel_open_orders(&buf).unwrap_err(), unknown);
    assert_eq!(decode_account(&buf).unwrap_err(), unknown);

    let trades = header(0, TRADES_TEMPLATE_ID);
    assert_eq!(
        decode_depth(&trades).unwrap_err(),
        SbeDecodeError::UnknownTemplateId(TRADES_TEMPLATE_ID)
    );
}

#[test]
fn test_schema_checked_before_template() {
    let mut buf = header(0, PING_TEMPLATE_ID);
    buf[4..6].copy_from_slice(&9u16.to_le_bytes());
    buf[6..8].copy_from_slice(&7u16.to_le_bytes());
    assert_eq!(
        decode_depth(&buf).unwrap_err(),
        SbeDecodeError::SchemaMismatch { expected: SBE_SCHEMA_ID, actual: 9 }
    );

    let mut buf = header(0, PING_TEMPLATE_ID);
    buf[6..8].copy_from_slice(&7u16.to_le_bytes());
    assert_eq!(
        decode_depth(&buf).unwrap_err(),
        SbeDecodeError::VersionMismatch { expected: SBE_SCHEMA_VERSION, actual: 7 }
    );
}
