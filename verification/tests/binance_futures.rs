//! Binance Futures data client decisions.

use nautilus_adapters::binance::futures::data::{
    bars_stream, book_deltas_stream, book_deltas_unsubscribe_streams, check_futures_product_type,
    find_instrument, lifecycle_step, quotes_stream, trades_stream, ws_message_action,
    BinanceFuturesDataClient, BinanceProductType, ClientLifecycleAction, ClientLifecycleEvent,
    FuturesWsAction, FuturesWsMessageKind, InstrumentRequestSource,
};
use nautilus_adapters::model::enums::BookType;

#[test]
fn test_futures_product_types_accepted() {
    assert!(check_futures_product_type(BinanceProductType::UsdM).is_ok());
    assert!(check_futures_product_type(BinanceProductType::CoinM).is_ok());
}

#[test]
fn test_non_futures_product_types_rejected() {
    for (product_type, name) in [
        (BinanceProductType::Spot, "Spot"),
        (BinanceProductType::Margin, "Margin"),
        (BinanceProductType::Options, "Options"),
    ] {
        let err = check_futures_product_type(product_type).unwrap_err();
        assert_eq!(
            err,
            format!("BinanceFuturesDataClient requires UsdM or CoinM product type, got {name}")
        );
    }
}

#[test]
fn test_book_deltas_stream_requires_l2_mbp() {
    assert_eq!(book_deltas_stream("btcusdt", BookType::L2_MBP).unwrap(), "btcusdt@depth@100ms");
    for book_type in [BookType::L1_MBP, BookType::L3_MBO] {
        assert_eq!(
            book_deltas_stream("btcusdt", book_type).unwrap_err(),
            "Binance Futures only supports L2_MBP order book deltas"
        );
    }
}

#[test]
fn test_unsubscribe_book_deltas_covers_every_speed() {
    let streams = book_deltas_unsubscribe_streams("ethusdt");
    assert_eq!(
        streams,
        vec![
            "ethusdt@depth".to_string(),
            "ethusdt@depth@100ms".to_string(),
            "ethusdt@depth@250ms".to_string(),
            "ethusdt@depth@500ms".to_string(),
        ]
    );
    let subscribed = book_deltas_stream("ethusdt", BookType::L2_MBP).unwrap();
    assert!(streams.contains(&subscribed));
}

#[test]
fn test_stream_names() {
    assert_eq!(quotes_stream("btcusdt"), "btcusdt@bookTicker");
    assert_eq!(trades_stream("btcusdt"), "btcusdt@aggTrade");
    assert_eq!(bars_stream("btcusdt", "1m"), "btcusdt@kline_1m");
    assert_eq!(bars_stream("ethusd_perp", "4h"), "ethusd_perp@kline_4h");
}

#[test]
fn test_ws_message_actions() {
    let cases = [
        (FuturesWsMessageKind::Data, FuturesWsAction::EmitData),
        (FuturesWsMessageKind::Deltas, FuturesWsAction::EmitDeltas),
        (FuturesWsMessageKind::Instrument, FuturesWsAction::UpsertInstrument),
        (FuturesWsMessageKind::Error, FuturesWsAction::LogError),
        (FuturesWsMessageKind::AccountUpdate, FuturesWsAction::LogDebug),
        (FuturesWsMessageKind::OrderUpdate, FuturesWsAction::LogDebug),
        (FuturesWsMessageKind::MarginCall, FuturesWsAction::LogWarning),
        (FuturesWsMessageKind::AccountConfigUpdate, FuturesWsAction::LogDebug),
        (FuturesWsMessageKind::ListenKeyExpired, FuturesWsAction::LogWarning),
        (FuturesWsMessageKind::RawJson, FuturesWsAction::LogDebug),
        (FuturesWsMessageKind::Reconnected, FuturesWsAction::LogInfo),
    ];
    for (kind, action) in cases {
        assert_eq!(ws_message_action(kind), action);
    }
}

#[test]
fn test_find_instrument_first_match() {
    let ids = vec![
        "BTCUSDT-PERP.BINANCE".to_string(),
        "ETHUSDT-PERP.BINANCE".to_string(),
        "ETHUSDT-PERP.BINANCE".to_string(),
    ];
    assert_eq!(find_instrument(&ids, "ETHUSDT-PERP.BINANCE"), Some(1));
    assert_eq!(find_instrument(&ids, "BTCUSDT-PERP.BINANCE"), Some(0));
    assert_eq!(find_instrument(&ids, "SOLUSDT-PERP.BINANCE"), None);
    assert_eq!(find_instrument(&Vec::new(), "BTCUSDT-PERP.BINANCE"), None);
}

#[test]
fn test_lifecycle_connect_is_idempotent() {
    assert_eq!(
        lifecycle_step(false, ClientLifecycleEvent::Connect),
        (false, ClientLifecycleAction::StartConnection)
    );
    assert_eq!(
        lifecycle_step(true, ClientLifecycleEvent::Connect),
        (true, ClientLifecycleAction::Nothing)
    );
    assert_eq!(lifecycle_step(false, ClientLifecycleEvent::ConnectFailed), (false, ClientLifecycleAction::Nothing));
}

#[test]
fn test_lifecycle_shutdown() {
    assert_eq!(
        lifecycle_step(true, ClientLifecycleEvent::Disconnect),
        (false, ClientLifecycleAction::CloseConnection)
    );
    assert_eq!(
        lifecycle_step(false, ClientLifecycleEvent::Disconnect),
        (false, ClientLifecycleAction::Nothing)
    );
    for connected in [false, true] {
        assert_eq!(
            lifecycle_step(connected, ClientLifecycleEvent::Stop),
            (false, ClientLifecycleAction::CancelTasks)
        );
        assert_eq!(
            lifecycle_step(connected, ClientLifecycleEvent::Reset),
            (false, ClientLifecycleAction::AbortAndRenew)
        );
    }
}

#[test]
fn test_client_new_checks_product_type() {
    let client = BinanceFuturesDataClient::new("BINANCE-001".to_string(), BinanceProductType::UsdM)
        .unwrap();
    assert_eq!(client.client_id, "BINANCE-001");
    assert_eq!(client.product_type, BinanceProductType::UsdM);
    assert!(!client.is_connected());
    assert!(client.is_disconnected());
    assert_eq!(client.task_count, 0);
    assert!(client.instrument_ids.is_empty());
    assert_eq!(client.venue(), "BINANCE");

    let err = BinanceFuturesDataClient::new("BINANCE-001".to_string(), BinanceProductType::Spot)
        .unwrap_err();
    assert_eq!(err, "BinanceFuturesDataClient requires UsdM or CoinM product type, got Spot");
}

#[test]
fn test_client_lifecycle_and_cache() {
    let mut client =
        BinanceFuturesDataClient::new("C".to_string(), BinanceProductType::CoinM).unwrap();
    assert_eq!(client.apply_lifecycle(ClientLifecycleEvent::Connect), ClientLifecycleAction::StartConnection);
    assert!(!client.is_connected());
    let published = client.connect_succeeded(vec![
        "BTCUSD_PERP.BINANCE".to_string(),
        "ETHUSD_PERP.BINANCE".to_string(),
    ]);
    assert_eq!(published, vec!["BTCUSD_PERP.BINANCE".to_string(), "ETHUSD_PERP.BINANCE".to_string()]);
    assert!(client.is_connected());
    assert_eq!(client.task_count, 1);
    assert_eq!(client.instrument_ids.len(), 2);
    assert_eq!(client.apply_lifecycle(ClientLifecycleEvent::Connect), ClientLifecycleAction::Nothing);

    assert_eq!(client.instrument_request_source("SOLUSD_PERP.BINANCE"), InstrumentRequestSource::FetchAll);
    client.upsert_instrument("SOLUSD_PERP.BINANCE".to_string());
    client.upsert_instrument("ETHUSD_PERP.BINANCE".to_string());
    assert_eq!(client.instrument_ids.len(), 3);
    assert_eq!(client.instrument_request_source("ETHUSD_PERP.BINANCE"), InstrumentRequestSource::Cached(1));
    assert_eq!(client.instrument_request_source("SOLUSD_PERP.BINANCE"), InstrumentRequestSource::Cached(2));

    assert_eq!(client.request_client_id(None), "C");
    assert_eq!(client.request_client_id(Some("OTHER".to_string())), "OTHER");

    assert_eq!(client.apply_lifecycle(ClientLifecycleEvent::Disconnect), ClientLifecycleAction::CloseConnection);
    assert!(client.is_disconnected());
    assert_eq!(client.task_count, 0);
    assert_eq!(client.instrument_ids.len(), 3);
}

#[test]
fn test_client_failed_connect_and_reconnect() {
    let mut client =
        BinanceFuturesDataClient::new("C".to_string(), BinanceProductType::UsdM).unwrap();
    client.apply_lifecycle(ClientLifecycleEvent::Connect);
    assert_eq!(client.apply_lifecycle(ClientLifecycleEvent::ConnectFailed), ClientLifecycleAction::Nothing);
    assert!(client.is_disconnected());
    assert_eq!(client.task_count, 0);
    assert!(client.instrument_ids.is_empty());

    client.connect_succeeded(vec!["A".to_string(), "B".to_string(), "A".to_string()]);
    assert_eq!(client.instrument_ids, vec!["A".to_string(), "B".to_string()]);
    assert_eq!(client.apply_lifecycle(ClientLifecycleEvent::Reset), ClientLifecycleAction::AbortAndRenew);
    assert_eq!(client.task_count, 0);
    assert!(client.is_disconnected());
    client.connect_succeeded(vec!["C".to_string()]);
    assert_eq!(client.instrument_ids.len(), 3);
    assert_eq!(client.task_count, 1);
}
