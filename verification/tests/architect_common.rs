//! Architect environments, enum conversions and request builders.

use nautilus_adapters::architect::common::enums::{
    default_instrument_state, ArchitectEnvironment, ArchitectInstrumentState,
    ArchitectMdWsMessageType, ArchitectOrderSide, ArchitectOrderStatus, ArchitectTimeInForce,
};
use nautilus_adapters::architect::http::models::{
    AuthenticateApiKeyRequest, AuthenticateUserRequest, CancelOrderRequest, PlaceOrderRequest,
};
use nautilus_adapters::model::enums::{
    AggressorSide, OrderSide, OrderStatus, PositionSide, TimeInForce,
};

#[test]
fn test_environment_urls() {
    let sandbox = ArchitectEnvironment::default();
    assert_eq!(sandbox, ArchitectEnvironment::Sandbox);
    assert_eq!(
        sandbox.http_url(),
        "https://gateway.sandbox.architect.exchange/api"
    );
    assert_eq!(
        sandbox.ws_md_url(),
        "wss://gateway.sandbox.architect.exchange/md/ws"
    );
    assert_eq!(
        sandbox.ws_orders_url(),
        "wss://gateway.sandbox.architect.exchange/orders/ws"
    );
    assert_eq!(
        sandbox.orders_url(),
        "https://gateway.sandbox.architect.exchange/orders"
    );

    let production = ArchitectEnvironment::Production;
    assert_eq!(production.http_url(), "https://gateway.architect.exchange/api");
    assert_eq!(production.ws_md_url(), "wss://gateway.architect.exchange/md/ws");
    assert_eq!(
        production.ws_orders_url(),
        "wss://gateway.architect.exchange/orders/ws"
    );
    assert_eq!(production.orders_url(), "https://gateway.architect.exchange/orders");
}

#[test]
fn test_default_instrument_state_is_open() {
    assert_eq!(default_instrument_state(), ArchitectInstrumentState::Open);
}

#[test]
fn test_order_side_conversions() {
    assert_eq!(AggressorSide::from(ArchitectOrderSide::Buy), AggressorSide::Buyer);
    assert_eq!(AggressorSide::from(ArchitectOrderSide::Sell), AggressorSide::Seller);
    assert_eq!(OrderSide::from(ArchitectOrderSide::Buy), OrderSide::Buy);
    assert_eq!(OrderSide::from(ArchitectOrderSide::Sell), OrderSide::Sell);
    assert_eq!(PositionSide::from(ArchitectOrderSide::Buy), PositionSide::Long);
    assert_eq!(PositionSide::from(ArchitectOrderSide::Sell), PositionSide::Short);
}

#[test]
fn test_order_status_conversion() {
    let cases = [
        (ArchitectOrderStatus::Pending, OrderStatus::Submitted),
        (ArchitectOrderStatus::Accepted, OrderStatus::Accepted),
        (ArchitectOrderStatus::PartiallyFilled, OrderStatus::PartiallyFilled),
        (ArchitectOrderStatus::Filled, OrderStatus::Filled),
        (ArchitectOrderStatus::Canceled, OrderStatus::Canceled),
        (ArchitectOrderStatus::Rejected, OrderStatus::Rejected),
        (ArchitectOrderStatus::Expired, OrderStatus::Expired),
        (ArchitectOrderStatus::Replaced, OrderStatus::Accepted),
        (ArchitectOrderStatus::DoneForDay, OrderStatus::Canceled),
        (ArchitectOrderStatus::Unknown, OrderStatus::Initialized),
    ];
    for (status, expected) in cases {
        assert_eq!(OrderStatus::from(status), expected);
    }
}

#[test]
fn test_time_in_force_conversion() {
    assert_eq!(TimeInForce::from(ArchitectTimeInForce::Gtc), TimeInForce::Gtc);
    assert_eq!(TimeInForce::from(ArchitectTimeInForce::Ioc), TimeInForce::Ioc);
    assert_eq!(TimeInForce::from(ArchitectTimeInForce::Day), TimeInForce::Day);
}

#[test]
fn test_md_ws_message_type_codes_round_trip() {
    let all = [
        (ArchitectMdWsMessageType::Heartbeat, "h"),
        (ArchitectMdWsMessageType::Ticker, "s"),
        (ArchitectMdWsMessageType::Trade, "t"),
        (ArchitectMdWsMessageType::Candle, "c"),
        (ArchitectMdWsMessageType::BookLevel1, "1"),
        (ArchitectMdWsMessageType::BookLevel2, "2"),
        (ArchitectMdWsMessageType::BookLevel3, "3"),
    ];
    for (msg_type, code) in all {
        assert_eq!(msg_type.code(), code);
        assert_eq!(ArchitectMdWsMessageType::from_code(code), Some(msg_type));
    }
    assert_eq!(ArchitectMdWsMessageType::from_code("x"), None);
    assert_eq!(ArchitectMdWsMessageType::from_code(""), None);
}

#[test]
fn test_authenticate_api_key_request_builder() {
    let request = AuthenticateApiKeyRequest::new("key".to_string(), "secret".to_string(), 3600);
    assert_eq!(request.api_key, "key");
    assert_eq!(request.api_secret, "secret");
    assert_eq!(request.expiration_seconds, 3600);
    assert!(request.totp.is_none());

    let request = request.with_totp("123456".to_string());
    assert_eq!(request.totp.as_deref(), Some("123456"));
    assert_eq!(request.api_key, "key");
}

#[test]
fn test_authenticate_user_request_builder() {
    let request = AuthenticateUserRequest::new("user".to_string(), "pass".to_string(), 60);
    assert_eq!(request.username, "user");
    assert_eq!(request.password, "pass");
    assert_eq!(request.expiration_seconds, 60);
    assert!(request.totp.is_none());

    let request = request.with_totp("654321".to_string());
    assert_eq!(request.totp.as_deref(), Some("654321"));
}

#[test]
fn test_place_and_cancel_order_request_builders() {
    let request = PlaceOrderRequest::new(
        ArchitectOrderSide::Sell,
        "1.2345".to_string(),
        10,
        "EURUSD-PERP".to_string(),
        ArchitectTimeInForce::Gtc,
        true,
    );
    assert_eq!(request.d, ArchitectOrderSide::Sell);
    assert_eq!(request.p, "1.2345");
    assert_eq!(request.q, 10);
    assert_eq!(request.s, "EURUSD-PERP");
    assert_eq!(request.tif, ArchitectTimeInForce::Gtc);
    assert!(request.po);
    assert!(request.tag.is_none());

    let request = request.with_tag("tag1".to_string());
    assert_eq!(request.tag.as_deref(), Some("tag1"));
    assert_eq!(request.q, 10);

    let cancel = CancelOrderRequest::new("O-1".to_string());
    assert_eq!(cancel.oid, "O-1");
}
