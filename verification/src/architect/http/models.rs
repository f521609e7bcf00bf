//! Data transfer objects for Architect HTTP API payloads.

use vstd::prelude::*;

use crate::architect::common::enums::{ArchitectOrderSide, ArchitectOrderStatus, ArchitectTimeInForce};

verus! {

/// Response payload returned by `POST /authenticate`.
#[derive(Clone, Debug)]
pub struct ArchitectAuthenticateResponse {
    /// Session token for authenticated requests.
    pub token: String,
}

/// Response payload returned by `POST /place_order`.
#[derive(Clone, Debug)]
pub struct ArchitectPlaceOrderResponse {
    /// Order ID of the placed order.
    pub oid: String,
}

/// Response payload returned by `POST /cancel_order`.
#[derive(Clone, Debug)]
pub struct ArchitectCancelOrderResponse {
    /// Whether the cancel request has been accepted.
    pub cxl_rx: bool,
}

/// A single balance entry.
#[derive(Clone, Debug)]
pub struct ArchitectBalance {
    /// Asset symbol.
    pub symbol: String,
    /// Available balance amount.
    pub amount: String,
}

/// Response payload returned by `GET /balances`.
#[derive(Clone, Debug)]
pub struct ArchitectBalancesResponse {
    /// List of balances.
    pub balances: Vec<ArchitectBalance>,
}

/// Individual open order entry.
#[derive(Clone, Debug)]
pub struct ArchitectOpenOrder {
    /// Trade number.
    pub tn: i64,
    /// Timestamp (Unix epoch seconds).
    pub ts: i64,
    /// Order side.
    pub d: ArchitectOrderSide,
    /// Order status.
    pub o: ArchitectOrderStatus,
    /// Order ID.
    pub oid: String,
    /// Price.
    pub p: String,
    /// Quantity.
    pub q: i64,
    /// Remaining quantity.
    pub rq: i64,
    /// Symbol.
    pub s: String,
    /// Time in force.
    pub tif: ArchitectTimeInForce,
    /// User ID.
    pub u: String,
    /// Executed quantity.
    pub xq: i64,
    /// Optional order tag.
    pub tag: Option<String>,
}

/// Per-symbol risk metrics.
#[derive(Clone, Debug)]
pub struct ArchitectPerSymbolRisk {
    /// Open quantity.
    pub open_quantity: i64,
    /// Open notional value.
    pub open_notional: String,
    /// Average entry price.
    pub average_price: String,
    /// Liquidation price.
    pub liquidation_price: Option<String>,
    /// Initial margin required.
    pub initial_margin_required: Option<String>,
    /// Maintenance margin required.
    pub maintenance_margin_required: Option<String>,
    /// Unrealized P&L.
    pub unrealized_pnl: Option<String>,
}

/// Request body for `POST /authenticate` using API key and secret.
#[derive(Clone, Debug)]
pub struct AuthenticateApiKeyRequest {
    /// API key.
    pub api_key: String,
    /// API secret.
    pub api_secret: String,
    /// Token expiration in seconds.
    pub expiration_seconds: i32,
    /// Optional 2FA code.
    pub totp: Option<String>,
}

impl AuthenticateApiKeyRequest {
    /// Creates a new [`AuthenticateApiKeyRequest`].
    #[must_use]
    pub fn new(api_key: String, api_secret: String, expiration_seconds: i32) -> (r: Self)
        ensures
            r.api_key@ == api_key@,
            r.api_secret@ == api_secret@,
            r.expiration_seconds == expiration_seconds,
            r.totp is None,
    {
        Self { api_key, api_secret, expiration_seconds, totp: None }
    }

    /// Sets the optional 2FA code.
    #[must_use]
    pub fn with_totp(self, totp: String) -> (r: Self)
        ensures
            r.api_key@ == self.api_key@,
            r.api_secret@ == self.api_secret@,
            r.expiration_seconds == self.expiration_seconds,
            r.totp matches Some(t) && t@ == totp@,
    {
        let mut this = self;
        this.totp = Some(totp);
        this
    }
}

/// Request body for `POST /authenticate` using username and password.
#[derive(Clone, Debug)]
pub struct AuthenticateUserRequest {
    /// Username.
    pub username: String,
    /// Password.
    pub password: String,
    /// Token expiration in seconds.
    pub expiration_seconds: i32,
    /// Optional 2FA code.
    pub totp: Option<String>,
}

impl AuthenticateUserRequest {
    /// Creates a new [`AuthenticateUserRequest`].
    #[must_use]
    pub fn new(username: String, password: String, expiration_seconds: i32) -> (r: Self)
        ensures
            r.username@ == username@,
            r.password@ == password@,
            r.expiration_seconds == expiration_seconds,
            r.totp is None,
    {
        Self { username, password, expiration_seconds, totp: None }
    }

    /// Sets the optional 2FA code.
    #[must_use]
    pub fn with_totp(self, totp: String) -> (r: Self)
        ensures
            r.username@ == self.username@,
            r.password@ == self.password@,
            r.expiration_seconds == self.expiration_seconds,
            r.totp matches Some(t) && t@ == totp@,
    {
        let mut this = self;
        this.totp = Some(totp);
        this
    }
}

/// Request body for `POST /place_order`.
#[derive(Clone, Debug)]
pub struct PlaceOrderRequest {
    /// Order side: "B" (buy) or "S" (sell).
    pub d: ArchitectOrderSide,
    /// Order price as decimal string.
    pub p: String,
    /// Post-only flag (maker-or-cancel).
    pub po: bool,
    /// Order quantity in contracts.
    pub q: i64,
    /// Order symbol.
    pub s: String,
    /// Time in force.
    pub tif: ArchitectTimeInForce,
    /// Optional order tag (max 10 alphanumeric characters).
    pub tag: Option<String>,
}

impl PlaceOrderRequest {
    /// Creates a new [`PlaceOrderRequest`].
    #[must_use]
    pub fn new(
        side: ArchitectOrderSide,
        price: String,
        quantity: i64,
        symbol: String,
        time_in_force: ArchitectTimeInForce,
        post_only: bool,
    ) -> (r: Self)
        ensures
            r.d == side,
            r.p@ == price@,
            r.po == post_only,
            r.q == quantity,
            r.s@ == symbol@,
            r.tif == time_in_force,
            r.tag is None,
    {
        Self { d: side, p: price, po: post_only, q: quantity, s: symbol, tif: time_in_force, tag: None }
    }

    /// Sets the optional order tag.
    #[must_use]
    pub fn with_tag(self, tag: String) -> (r: Self)
        ensures
            r.d == self.d,
            r.p@ == self.p@,
            r.po == self.po,
            r.q == self.q,
            r.s@ == self.s@,
            r.tif == self.tif,
            r.tag matches Some(t) && t@ == tag@,
    {
        let mut this = self;
        this.tag = Some(tag);
        this
    }
}

/// Request body for `POST /cancel_order`.
#[derive(Clone, Debug)]
pub struct CancelOrderRequest {
    /// Order ID to cancel.
    pub oid: String,
}

impl CancelOrderRequest {
    /// Creates a new [`CancelOrderRequest`].
    #[must_use]
    pub fn new(order_id: String) -> (r: Self)
        ensures
            r.oid@ == order_id@,
    {
        Self { oid: order_id }
    }
}

} // verus!
