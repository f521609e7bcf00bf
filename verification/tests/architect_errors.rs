//! Messages and conversions of the Architect HTTP and WebSocket errors.

use nautilus_adapters::architect::http::error::{
    ArchitectBuildError, ArchitectErrorResponse, ArchitectHttpError,
};
use nautilus_adapters::architect::websocket::error::{ArchitectWsError, ArchitectWsErrorResponse};

#[test]
fn test_architect_build_error_display() {
    let error = ArchitectBuildError::MissingSymbol;
    assert_eq!(error.to_string(), "Missing required symbol");

    let error = ArchitectBuildError::InvalidLimit("must be positive".to_string());
    assert_eq!(error.to_string(), "Invalid limit: must be positive");

    let error = ArchitectBuildError::InvalidTimeRange {
        start: 100,
        end: 50,
    };
    assert_eq!(
        error.to_string(),
        "Invalid time range: start (100) must be less than end (50)"
    );
}

#[test]
fn test_architect_http_error_from_json_error() {
    let json_err = serde_json::from_str::<serde_json::Value>("invalid json")
        .expect_err("Should fail to parse");
    let http_err = ArchitectHttpError::from_json_error(&json_err);

    assert!(matches!(http_err, ArchitectHttpError::JsonError(_)));
}

#[test]
fn test_architect_http_error_from_string() {
    let error = ArchitectHttpError::from("Test validation error".to_string());
    assert_eq!(
        error.to_string(),
        "Parameter validation error: Test validation error"
    );
}

#[test]
fn test_architect_error_response_to_http_error() {
    let error_response = ArchitectErrorResponse {
        error: Some("INVALID_REQUEST".to_string()),
        message: Some("Invalid parameter".to_string()),
        status: Some(400),
    };

    let http_error = ArchitectHttpError::from_error_response(error_response);
    assert_eq!(
        http_error.to_string(),
        "Architect API error: Invalid parameter"
    );
}

#[test]
fn test_architect_ws_error_display() {
    let error = ArchitectWsError::ParsingError("invalid message format".to_string());
    assert_eq!(error.to_string(), "Parsing error: invalid message format");

    let error = ArchitectWsError::ApiError("INSUFFICIENT_MARGIN".to_string());
    assert_eq!(error.to_string(), "Architect error: INSUFFICIENT_MARGIN");

    let error = ArchitectWsError::AuthenticationError("token expired".to_string());
    assert_eq!(error.to_string(), "Authentication error: token expired");
}

#[test]
fn test_architect_ws_error_from_json_error() {
    let json_err = serde_json::from_str::<serde_json::Value>("invalid json")
        .expect_err("Should fail to parse");
    let ws_err = ArchitectWsError::from_json_error(&json_err);

    assert!(matches!(ws_err, ArchitectWsError::JsonError(_)));
}

#[test]
fn test_architect_ws_error_from_string() {
    let error = ArchitectWsError::from("Test client error".to_string());
    assert_eq!(error.to_string(), "Client error: Test client error");
}

#[test]
fn test_architect_ws_error_response_to_error() {
    let error_response = ArchitectWsErrorResponse {
        code: Some("ORDER_NOT_FOUND".to_string()),
        message: Some("Order does not exist".to_string()),
        rid: Some(123),
    };

    let ws_error = ArchitectWsError::from_error_response(error_response);
    assert_eq!(
        ws_error.to_string(),
        "Architect error: Order does not exist"
    );
}

#[test]
fn test_architect_ws_error_response_fallback_to_code() {
    let error_response = ArchitectWsErrorResponse {
        code: Some("INVALID_REQUEST".to_string()),
        message: None,
        rid: None,
    };

    let ws_error = ArchitectWsError::from_error_response(error_response);
    assert_eq!(ws_error.to_string(), "Architect error: INVALID_REQUEST");
}

#[test]
fn test_error_response_without_text_is_unknown_error() {
    let error_response = ArchitectErrorResponse {
        error: None,
        message: None,
        status: None,
    };
    let http_error = ArchitectHttpError::from_error_response(error_response);
    assert_eq!(http_error.to_string(), "Architect API error: Unknown error");

    let ws_error = ArchitectWsError::from_error_response(ArchitectWsErrorResponse {
        code: None,
        message: None,
        rid: None,
    });
    assert_eq!(ws_error.to_string(), "Architect error: Unknown error");
}

#[test]
fn test_http_error_messages_for_every_variant() {
    assert_eq!(
        ArchitectHttpError::MissingCredentials.to_string(),
        "Missing credentials for authenticated request"
    );
    assert_eq!(
        ArchitectHttpError::UnexpectedStatus {
            status: 503,
            body: "busy".to_string()
        }
        .to_string(),
        "Unexpected HTTP status code 503: busy"
    );
    assert_eq!(
        ArchitectHttpError::from(ArchitectBuildError::MissingOrderId).to_string(),
        "Build error: Missing required order identifier"
    );
    assert_eq!(
        ArchitectHttpError::Canceled("shutdown".to_string()).to_string(),
        "Request canceled: shutdown"
    );
    assert_eq!(
        ArchitectHttpError::NetworkError("reset".to_string()).to_string(),
        "Network error: reset"
    );
}

#[test]
fn test_negative_time_range_bounds_are_printed_with_sign() {
    let error = ArchitectBuildError::InvalidTimeRange { start: -5, end: -10 };
    assert_eq!(
        error.to_string(),
        "Invalid time range: start (-5) must be less than end (-10)"
    );
}
