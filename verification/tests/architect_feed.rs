//! Decisions of the Architect market data feed handler.

use nautilus_adapters::architect::common::enums::{
    ArchitectCandleWidth, ArchitectMarketDataLevel, ArchitectMdWsMessageType,
};
use nautilus_adapters::architect::websocket::data::handler::{
    check_client_available, choose_emission, classify_md_text, client_command_step, md_request_for, next_feed_step, raw_frame_action, route_md_message,
    unknown_message_type_text, FeedEvent, FeedStep, MdEmission, MdMessageRoute,
    ClientCommand, ClientCommandAction, MdInstrumentCache, MdMessageQueue, MdSubscriptionCommand,
    RawFrameAction, RawFrameKind,
};

#[test]
fn test_route_md_message_by_type() {
    assert_eq!(route_md_message("h", false), MdMessageRoute::Heartbeat);
    assert_eq!(route_md_message("s", false), MdMessageRoute::Ticker);
    assert_eq!(route_md_message("s", true), MdMessageRoute::Trade);
    assert_eq!(route_md_message("t", false), MdMessageRoute::Trade);
    assert_eq!(route_md_message("t", true), MdMessageRoute::Trade);
    assert_eq!(route_md_message("c", false), MdMessageRoute::Candle);
    assert_eq!(route_md_message("1", false), MdMessageRoute::BookL1);
    assert_eq!(route_md_message("2", false), MdMessageRoute::BookL2);
    assert_eq!(route_md_message("3", true), MdMessageRoute::BookL3);
    assert_eq!(route_md_message("x", false), MdMessageRoute::Unknown);
    assert_eq!(route_md_message("", false), MdMessageRoute::Unknown);
    assert_eq!(route_md_message("hh", false), MdMessageRoute::Unknown);
}

#[test]
fn test_every_message_type_code_is_routed_to_its_parser() {
    let cases = [
        (ArchitectMdWsMessageType::Heartbeat, MdMessageRoute::Heartbeat),
        (ArchitectMdWsMessageType::Ticker, MdMessageRoute::Ticker),
        (ArchitectMdWsMessageType::Trade, MdMessageRoute::Trade),
        (ArchitectMdWsMessageType::Candle, MdMessageRoute::Candle),
        (ArchitectMdWsMessageType::BookLevel1, MdMessageRoute::BookL1),
        (ArchitectMdWsMessageType::BookLevel2, MdMessageRoute::BookL2),
        (ArchitectMdWsMessageType::BookLevel3, MdMessageRoute::BookL3),
    ];
    for (msg_type, route) in cases {
        assert_eq!(route_md_message(msg_type.code(), false), route);
        assert_eq!(ArchitectMdWsMessageType::from_code(msg_type.code()), Some(msg_type));
    }
}

#[test]
fn test_unknown_message_type_text() {
    assert_eq!(unknown_message_type_text("zz"), "Unknown message type: zz");
}

#[test]
fn test_choose_emission() {
    assert_eq!(choose_emission(true, true), MdEmission::Converted);
    assert_eq!(choose_emission(true, false), MdEmission::Raw);
    assert_eq!(choose_emission(false, true), MdEmission::Raw);
    assert_eq!(choose_emission(false, false), MdEmission::Raw);
}

#[test]
fn test_md_request_for_each_command() {
    let request = md_request_for(&MdSubscriptionCommand::Subscribe {
        request_id: 1,
        symbol: "EURUSD-PERP".to_string(),
        level: ArchitectMarketDataLevel::Level2,
    });
    assert_eq!(request.request_id, 1);
    assert_eq!(request.msg_type, "subscribe");
    assert_eq!(request.symbol, "EURUSD-PERP");
    assert_eq!(request.level, Some(ArchitectMarketDataLevel::Level2));
    assert_eq!(request.width, None);

    let request = md_request_for(&MdSubscriptionCommand::Unsubscribe {
        request_id: 2,
        symbol: "EURUSD-PERP".to_string(),
    });
    assert_eq!(request.request_id, 2);
    assert_eq!(request.msg_type, "unsubscribe");
    assert_eq!(request.level, None);
    assert_eq!(request.width, None);

    let request = md_request_for(&MdSubscriptionCommand::SubscribeCandles {
        request_id: 3,
        symbol: "GBPUSD-PERP".to_string(),
        width: ArchitectCandleWidth::Minutes5,
    });
    assert_eq!(request.msg_type, "subscribe_candles");
    assert_eq!(request.symbol, "GBPUSD-PERP");
    assert_eq!(request.width, Some(ArchitectCandleWidth::Minutes5));

    let request = md_request_for(&MdSubscriptionCommand::UnsubscribeCandles {
        request_id: 4,
        symbol: "GBPUSD-PERP".to_string(),
        width: ArchitectCandleWidth::Hours1,
    });
    assert_eq!(request.request_id, 4);
    assert_eq!(request.msg_type, "unsubscribe_candles");
    assert_eq!(request.width, Some(ArchitectCandleWidth::Hours1));
}

#[test]
fn test_raw_frame_action() {
    assert_eq!(raw_frame_action(RawFrameKind::Text, true), RawFrameAction::Reconnected);
    assert_eq!(raw_frame_action(RawFrameKind::Text, false), RawFrameAction::ParseJson);
    assert_eq!(raw_frame_action(RawFrameKind::Binary, false), RawFrameAction::Ignore);
    assert_eq!(raw_frame_action(RawFrameKind::Close, false), RawFrameAction::Ignore);
    assert_eq!(raw_frame_action(RawFrameKind::Ping, false), RawFrameAction::Ignore);
    assert_eq!(raw_frame_action(RawFrameKind::Other, true), RawFrameAction::Ignore);
}

#[test]
fn test_next_feed_step() {
    assert_eq!(next_feed_step(true, FeedEvent::StreamClosed, true), FeedStep::DeliverQueued);
    assert_eq!(next_feed_step(false, FeedEvent::Command, true), FeedStep::HandleCommand);
    assert_eq!(next_feed_step(false, FeedEvent::IdleTimeout, false), FeedStep::Continue);
    assert_eq!(next_feed_step(false, FeedEvent::IdleTimeout, true), FeedStep::Stop);
    assert_eq!(next_feed_step(false, FeedEvent::Frame(RawFrameKind::Ping), true), FeedStep::AnswerPing);
    assert_eq!(next_feed_step(false, FeedEvent::Frame(RawFrameKind::Text), false), FeedStep::ProcessFrame);
    assert_eq!(
        next_feed_step(false, FeedEvent::Frame(RawFrameKind::Binary), true),
        FeedStep::ProcessFrameThenStop
    );
    assert_eq!(next_feed_step(false, FeedEvent::StreamClosed, false), FeedStep::Stop);
}

#[test]
fn test_instrument_cache_by_symbol() {
    let mut cache = MdInstrumentCache::new();
    assert!(!cache.contains("EURUSD-PERP"));
    cache.initialize_instruments(vec![
        "EURUSD-PERP".to_string(),
        "GBPUSD-PERP".to_string(),
        "EURUSD-PERP".to_string(),
    ]);
    assert!(cache.contains("EURUSD-PERP"));
    assert!(cache.contains("GBPUSD-PERP"));
    assert_eq!(cache.symbols.len(), 2);
    cache.update_instrument("XAU-PERP".to_string());
    cache.update_instrument("GBPUSD-PERP".to_string());
    assert!(cache.contains("XAU-PERP"));
    assert_eq!(cache.symbols.len(), 3);
    assert!(!cache.contains("XAU"));
}

#[test]
fn test_classify_md_text() {
    assert_eq!(classify_md_text(r#"{"t":"h","ts":1}"#), Some(MdMessageRoute::Heartbeat));
    assert_eq!(classify_md_text(r#"{"t":"s","s":"X","p":"1"}"#), Some(MdMessageRoute::Ticker));
    assert_eq!(classify_md_text(r#"{"t":"s","d":"B","s":"X"}"#), Some(MdMessageRoute::Trade));
    assert_eq!(classify_md_text(r#"{"t":"2","b":[],"a":[]}"#), Some(MdMessageRoute::BookL2));
    assert_eq!(classify_md_text(r#"{"t":"zz"}"#), Some(MdMessageRoute::Unknown));
    assert_eq!(classify_md_text("not json"), None);
    assert_eq!(classify_md_text(r#"["t","h"]"#), None);
    assert_eq!(classify_md_text(r#"{"t":1}"#), None);
    assert_eq!(classify_md_text(r#"{"x":"h"}"#), None);
}

#[test]
fn test_client_commands() {
    assert_eq!(client_command_step(false, ClientCommand::SetClient), (true, ClientCommandAction::StoreClient));
    assert_eq!(client_command_step(true, ClientCommand::SetClient), (true, ClientCommandAction::StoreClient));
    assert_eq!(
        client_command_step(true, ClientCommand::Disconnect),
        (false, ClientCommandAction::DisconnectClient)
    );
    assert_eq!(client_command_step(false, ClientCommand::Disconnect), (false, ClientCommandAction::Nothing));
    assert_eq!(check_client_available(true), Ok(()));
    assert_eq!(check_client_available(false), Err("No WebSocket client available".to_string()));
}

#[test]
fn test_message_queue_is_fifo() {
    let mut queue = MdMessageQueue::new();
    assert!(queue.is_empty());
    assert_eq!(queue.pop_front(), None::<u32>);
    queue.extend(vec![1u32, 2, 3]);
    assert_eq!(queue.pop_front(), Some(1));
    queue.extend(vec![4, 5]);
    assert_eq!(queue.pop_front(), Some(2));
    assert_eq!(queue.pop_front(), Some(3));
    assert_eq!(queue.pop_front(), Some(4));
    assert!(!queue.is_empty());
    assert_eq!(queue.pop_front(), Some(5));
    assert!(queue.is_empty());
}
