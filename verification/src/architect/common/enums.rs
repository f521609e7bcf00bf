//! Enumerations that model Architect string enums across HTTP and WebSocket payloads.

use vstd::prelude::*;
use vstd::std_specs::convert::FromSpec;

use super::consts::{
    ARCHITECT_HTTP_SANDBOX_URL, ARCHITECT_HTTP_URL, ARCHITECT_ORDERS_SANDBOX_URL,
    ARCHITECT_ORDERS_URL, ARCHITECT_WS_PRIVATE_URL, ARCHITECT_WS_PUBLIC_URL,
    ARCHITECT_WS_SANDBOX_PRIVATE_URL, ARCHITECT_WS_SANDBOX_PUBLIC_URL,
};
use crate::model::enums::{AggressorSide, OrderSide, OrderStatus, PositionSide, TimeInForce};

verus! {

/// `str` equality: true exactly when both slices hold the same characters.
#[verifier::external_body]
pub(crate) fn str_eq(a: &str, b: &str) -> (r: bool)
    ensures
        r == (a@ == b@),
{
    a == b
}

/// Architect API environment.
#[derive(Clone, Copy, Debug, Eq, PartialEq, Hash, Structural)]
pub enum ArchitectEnvironment {
    /// Sandbox/test environment.
    Sandbox,
    /// Production/live environment.
    Production,
}

impl Default for ArchitectEnvironment {
    /// The sandbox environment.
    fn default() -> (r: Self)
        ensures
            r == ArchitectEnvironment::Sandbox,
    {
        ArchitectEnvironment::Sandbox
    }
}

impl ArchitectEnvironment {
    pub open spec fn spec_http_url(self) -> Seq<char> {
        match self {
            ArchitectEnvironment::Sandbox => ARCHITECT_HTTP_SANDBOX_URL@,
            ArchitectEnvironment::Production => ARCHITECT_HTTP_URL@,
        }
    }

    pub open spec fn spec_orders_url(self) -> Seq<char> {
        match self {
            ArchitectEnvironment::Sandbox => ARCHITECT_ORDERS_SANDBOX_URL@,
            ArchitectEnvironment::Production => ARCHITECT_ORDERS_URL@,
        }
    }

    pub open spec fn spec_ws_md_url(self) -> Seq<char> {
        match self {
            ArchitectEnvironment::Sandbox => ARCHITECT_WS_SANDBOX_PUBLIC_URL@,
            ArchitectEnvironment::Production => ARCHITECT_WS_PUBLIC_URL@,
        }
    }

    pub open spec fn spec_ws_orders_url(self) -> Seq<char> {
        match self {
            ArchitectEnvironment::Sandbox => ARCHITECT_WS_SANDBOX_PRIVATE_URL@,
            ArchitectEnvironment::Production => ARCHITECT_WS_PRIVATE_URL@,
        }
    }

    /// Returns the HTTP API base URL for this environment.
    #[must_use]
    pub fn http_url(&self) -> (r: &'static str)
        ensures
            r@ == self.spec_http_url(),
    {
        match self {
            Self::Sandbox => ARCHITECT_HTTP_SANDBOX_URL,
            Self::Production => ARCHITECT_HTTP_URL,
        }
    }

    /// Returns the Orders API base URL for this environment.
    #[must_use]
    pub fn orders_url(&self) -> (r: &'static str)
        ensures
            r@ == self.spec_orders_url(),
    {
        match self {
            Self::Sandbox => ARCHITECT_ORDERS_SANDBOX_URL,
            Self::Production => ARCHITECT_ORDERS_URL,
        }
    }

    /// Returns the market data WebSocket URL for this environment.
    #[must_use]
    pub fn ws_md_url(&self) -> (r: &'static str)
        ensures
            r@ == self.spec_ws_md_url(),
    {
        match self {
            Self::Sandbox => ARCHITECT_WS_SANDBOX_PUBLIC_URL,
            Self::Production => ARCHITECT_WS_PUBLIC_URL,
        }
    }

    /// Returns the orders WebSocket URL for this environment.
    #[must_use]
    pub fn ws_orders_url(&self) -> (r: &'static str)
        ensures
            r@ == self.spec_ws_orders_url(),
    {
        match self {
            Self::Sandbox => ARCHITECT_WS_SANDBOX_PRIVATE_URL,
            Self::Production => ARCHITECT_WS_PRIVATE_URL,
        }
    }
}

/// Instrument state as returned by the Architect API.
#[derive(Clone, Copy, Debug, Eq, PartialEq, Hash, Structural)]
pub enum ArchitectInstrumentState {
    /// Instrument is in pre-open state.
    PreOpen,
    /// Instrument is open for trading.
    Open,
    /// Instrument trading is suspended.
    Suspended,
    /// Instrument has been delisted.
    Delisted,
    /// Instrument state is unknown.
    Unknown,
}

/// Default instrument state when not provided by API.
pub fn default_instrument_state() -> (r: ArchitectInstrumentState)
    ensures
        r == ArchitectInstrumentState::Open,
{
    ArchitectInstrumentState::Open
}

/// Order side for trading operations.
#[derive(Clone, Copy, Debug, Eq, PartialEq, Hash, Structural)]
pub enum ArchitectOrderSide {
    /// Buy order.
    Buy,
    /// Sell order.
    Sell,
}

impl vstd::std_specs::convert::FromSpecImpl<ArchitectOrderSide> for AggressorSide {
    open spec fn obeys_from_spec() -> bool {
        true
    }

    open spec fn from_spec(side: ArchitectOrderSide) -> Self {
        match side {
            ArchitectOrderSide::Buy => AggressorSide::Buyer,
            ArchitectOrderSide::Sell => AggressorSide::Seller,
        }
    }
}

impl From<ArchitectOrderSide> for AggressorSide {
    fn from(side: ArchitectOrderSide) -> (r: Self) {
        match side {
            ArchitectOrderSide::Buy => Self::Buyer,
            ArchitectOrderSide::Sell => Self::Seller,
        }
    }
}

impl vstd::std_specs::convert::FromSpecImpl<ArchitectOrderSide> for OrderSide {
    open spec fn obeys_from_spec() -> bool {
        true
    }

    open spec fn from_spec(side: ArchitectOrderSide) -> Self {
        match side {
            ArchitectOrderSide::Buy => OrderSide::Buy,
            ArchitectOrderSide::Sell => OrderSide::Sell,
        }
    }
}

impl From<ArchitectOrderSide> for OrderSide {
    fn from(side: ArchitectOrderSide) -> (r: Self) {
        match side {
            ArchitectOrderSide::Buy => Self::Buy,
            ArchitectOrderSide::Sell => Self::Sell,
        }
    }
}

impl vstd::std_specs::convert::FromSpecImpl<ArchitectOrderSide> for PositionSide {
    open spec fn obeys_from_spec() -> bool {
        true
    }

    open spec fn from_spec(side: ArchitectOrderSide) -> Self {
        match side {
            ArchitectOrderSide::Buy => PositionSide::Long,
            ArchitectOrderSide::Sell => PositionSide::Short,
        }
    }
}

impl From<ArchitectOrderSide> for PositionSide {
    fn from(side: ArchitectOrderSide) -> (r: Self) {
        match side {
            ArchitectOrderSide::Buy => Self::Long,
            ArchitectOrderSide::Sell => Self::Short,
        }
    }
}

/// The conversions of an order side agree on its direction: a buy is the
/// buyer aggressor and the long position side, a sell the seller and short.
pub proof fn lemma_side_conversions_agree(side: ArchitectOrderSide)
    ensures
        (<OrderSide as FromSpec<ArchitectOrderSide>>::from_spec(side) == OrderSide::Buy)
            == (<AggressorSide as FromSpec<ArchitectOrderSide>>::from_spec(side) == AggressorSide::Buyer),
        (<OrderSide as FromSpec<ArchitectOrderSide>>::from_spec(side) == OrderSide::Buy)
            == (<PositionSide as FromSpec<ArchitectOrderSide>>::from_spec(side) == PositionSide::Long),
        (<OrderSide as FromSpec<ArchitectOrderSide>>::from_spec(side) == OrderSide::Sell)
            == (<PositionSide as FromSpec<ArchitectOrderSide>>::from_spec(side) == PositionSide::Short),
{
}

/// Order status as returned by the Architect API.
#[derive(Clone, Copy, Debug, Eq, PartialEq, Hash, Structural)]
pub enum ArchitectOrderStatus {
    /// Order is pending submission.
    Pending,
    /// Order has been accepted by the exchange.
    Accepted,
    /// Order has been partially filled.
    PartiallyFilled,
    /// Order has been completely filled.
    Filled,
    /// Order has been canceled.
    Canceled,
    /// Order has been rejected.
    Rejected,
    /// Order has expired.
    Expired,
    /// Order has been replaced.
    Replaced,
    /// Order is done for the day.
    DoneForDay,
    /// Order status is unknown.
    Unknown,
}

impl vstd::std_specs::convert::FromSpecImpl<ArchitectOrderStatus> for OrderStatus {
    open spec fn obeys_from_spec() -> bool {
        true
    }

    open spec fn from_spec(status: ArchitectOrderStatus) -> Self {
        match status {
            ArchitectOrderStatus::Pending => OrderStatus::Submitted,
            ArchitectOrderStatus::Accepted => OrderStatus::Accepted,
            ArchitectOrderStatus::PartiallyFilled => OrderStatus::PartiallyFilled,
            ArchitectOrderStatus::Filled => OrderStatus::Filled,
            ArchitectOrderStatus::Canceled => OrderStatus::Canceled,
            ArchitectOrderStatus::Rejected => OrderStatus::Rejected,
            ArchitectOrderStatus::Expired => OrderStatus::Expired,
            ArchitectOrderStatus::Replaced => OrderStatus::Accepted,
            ArchitectOrderStatus::DoneForDay => OrderStatus::Canceled,
            ArchitectOrderStatus::Unknown => OrderStatus::Initialized,
        }
    }
}

impl From<ArchitectOrderStatus> for OrderStatus {
    fn from(status: ArchitectOrderStatus) -> (r: Self) {
        match status {
            ArchitectOrderStatus::Pending => Self::Submitted,
            ArchitectOrderStatus::Accepted => Self::Accepted,
            ArchitectOrderStatus::PartiallyFilled => Self::PartiallyFilled,
            ArchitectOrderStatus::Filled => Self::Filled,
            ArchitectOrderStatus::Canceled => Self::Canceled,
            ArchitectOrderStatus::Rejected => Self::Rejected,
            ArchitectOrderStatus::Expired => Self::Expired,
            ArchitectOrderStatus::Replaced => Self::Accepted,
            ArchitectOrderStatus::DoneForDay => Self::Canceled,
            ArchitectOrderStatus::Unknown => Self::Initialized,
        }
    }
}

/// Time in force for order validity.
#[derive(Clone, Copy, Debug, Eq, PartialEq, Hash, Structural)]
pub enum ArchitectTimeInForce {
    /// Good-Till-Canceled: order remains active until filled or canceled.
    Gtc,
    /// Immediate-Or-Cancel: fill immediately or cancel unfilled portion.
    Ioc,
    /// Day order: valid until end of trading day.
    Day,
}

impl vstd::std_specs::convert::FromSpecImpl<ArchitectTimeInForce> for TimeInForce {
    open spec fn obeys_from_spec() -> bool {
        true
    }

    open spec fn from_spec(tif: ArchitectTimeInForce) -> Self {
        match tif {
            ArchitectTimeInForce::Gtc => TimeInForce::Gtc,
            ArchitectTimeInForce::Ioc => TimeInForce::Ioc,
            ArchitectTimeInForce::Day => TimeInForce::Day,
        }
    }
}

impl From<ArchitectTimeInForce> for TimeInForce {
    fn from(tif: ArchitectTimeInForce) -> (r: Self) {
        match tif {
            ArchitectTimeInForce::Gtc => Self::Gtc,
            ArchitectTimeInForce::Ioc => Self::Ioc,
            ArchitectTimeInForce::Day => Self::Day,
        }
    }
}

/// Market data subscription level.
#[derive(Clone, Copy, Debug, Eq, PartialEq, Hash, Structural)]
pub enum ArchitectMarketDataLevel {
    /// Level 1: best bid/ask only.
    Level1,
    /// Level 2: aggregated price levels.
    Level2,
    /// Level 3: individual order quantities.
    Level3,
}

/// Candle/bar width for market data subscriptions.
#[derive(Clone, Copy, Debug, Eq, PartialEq, Hash, Structural)]
pub enum ArchitectCandleWidth {
    /// 1-second candles.
    Seconds1,
    /// 5-second candles.
    Seconds5,
    /// 1-minute candles.
    Minutes1,
    /// 5-minute candles.
    Minutes5,
    /// 15-minute candles.
    Minutes15,
    /// 1-hour candles.
    Hours1,
    /// 1-day candles.
    Days1,
}

/// WebSocket market data message type (server to client).
#[derive(Clone, Copy, Debug, Eq, PartialEq, Hash, Structural)]
pub enum ArchitectMdWsMessageType {
    /// Heartbeat event.
    Heartbeat,
    /// Ticker statistics update.
    Ticker,
    /// Trade event.
    Trade,
    /// Candle/OHLCV update.
    Candle,
    /// Level 1 book update (best bid/ask).
    BookLevel1,
    /// Level 2 book update (aggregated levels).
    BookLevel2,
    /// Level 3 book update (individual orders).
    BookLevel3,
}

impl ArchitectMdWsMessageType {
    /// The wire code of each message type.
    pub open spec fn spec_code(self) -> Seq<char> {
        match self {
            ArchitectMdWsMessageType::Heartbeat => "h"@,
            ArchitectMdWsMessageType::Ticker => "s"@,
            ArchitectMdWsMessageType::Trade => "t"@,
            ArchitectMdWsMessageType::Candle => "c"@,
            ArchitectMdWsMessageType::BookLevel1 => "1"@,
            ArchitectMdWsMessageType::BookLevel2 => "2"@,
            ArchitectMdWsMessageType::BookLevel3 => "3"@,
        }
    }

    /// The wire code of the message type.
    pub fn code(&self) -> (r: &'static str)
        ensures
            r@ == self.spec_code(),
    {
        match self {
            ArchitectMdWsMessageType::Heartbeat => "h",
            ArchitectMdWsMessageType::Ticker => "s",
            ArchitectMdWsMessageType::Trade => "t",
            ArchitectMdWsMessageType::Candle => "c",
            ArchitectMdWsMessageType::BookLevel1 => "1",
            ArchitectMdWsMessageType::BookLevel2 => "2",
            ArchitectMdWsMessageType::BookLevel3 => "3",
        }
    }

    /// The message type whose wire code is `code`, if any.
    pub fn from_code(code: &str) -> (r: Option<Self>)
        ensures
            r matches Some(t) ==> t.spec_code() == code@,
            r is None ==> forall|t: Self| #[trigger] t.spec_code() != code@,
    {
        if str_eq(code, "h") {
            Some(ArchitectMdWsMessageType::Heartbeat)
        } else if str_eq(code, "s") {
            Some(ArchitectMdWsMessageType::Ticker)
        } else if str_eq(code, "t") {
            Some(ArchitectMdWsMessageType::Trade)
        } else if str_eq(code, "c") {
            Some(ArchitectMdWsMessageType::Candle)
        } else if str_eq(code, "1") {
            Some(ArchitectMdWsMessageType::BookLevel1)
        } else if str_eq(code, "2") {
            Some(ArchitectMdWsMessageType::BookLevel2)
        } else if str_eq(code, "3") {
            Some(ArchitectMdWsMessageType::BookLevel3)
        } else {
            None
        }
    }
}

/// Distinct message types have distinct wire codes, so a code names at most
/// one message type.
pub proof fn lemma_md_code_injective(a: ArchitectMdWsMessageType, b: ArchitectMdWsMessageType)
    requires
        a.spec_code() == b.spec_code(),
    ensures
        a == b,
{
    reveal_strlit("h");
    reveal_strlit("s");
    reveal_strlit("t");
    reveal_strlit("c");
    reveal_strlit("1");
    reveal_strlit("2");
    reveal_strlit("3");
    assert(a.spec_code()[0] == b.spec_code()[0]);
    match a {
        ArchitectMdWsMessageType::Heartbeat => assert(a.spec_code()[0] == 'h'),
        ArchitectMdWsMessageType::Ticker => assert(a.spec_code()[0] == 's'),
        ArchitectMdWsMessageType::Trade => assert(a.spec_code()[0] == 't'),
        ArchitectMdWsMessageType::Candle => assert(a.spec_code()[0] == 'c'),
        ArchitectMdWsMessageType::BookLevel1 => assert(a.spec_code()[0] == '1'),
        ArchitectMdWsMessageType::BookLevel2 => assert(a.spec_code()[0] == '2'),
        ArchitectMdWsMessageType::BookLevel3 => assert(a.spec_code()[0] == '3'),
    }
    match b {
        ArchitectMdWsMessageType::Heartbeat => assert(b.spec_code()[0] == 'h'),
        ArchitectMdWsMessageType::Ticker => assert(b.spec_code()[0] == 's'),
        ArchitectMdWsMessageType::Trade => assert(b.spec_code()[0] == 't'),
        ArchitectMdWsMessageType::Candle => assert(b.spec_code()[0] == 'c'),
        ArchitectMdWsMessageType::BookLevel1 => assert(b.spec_code()[0] == '1'),
        ArchitectMdWsMessageType::BookLevel2 => assert(b.spec_code()[0] == '2'),
        ArchitectMdWsMessageType::BookLevel3 => assert(b.spec_code()[0] == '3'),
    }
}

/// WebSocket order message type (server to client).
#[derive(Clone, Copy, Debug, Eq, PartialEq, Hash, Structural)]
pub enum ArchitectOrderWsMessageType {
    /// Heartbeat event.
    Heartbeat,
    /// Cancel rejected event.
    CancelRejected,
    /// Order acknowledged event.
    OrderAcknowledged,
    /// Order canceled event.
    OrderCanceled,
    /// Order replaced/amended event.
    OrderReplaced,
    /// Order rejected event.
    OrderRejected,
    /// Order expired event.
    OrderExpired,
    /// Order done for day event.
    OrderDoneForDay,
    /// Order partially filled event.
    OrderPartiallyFilled,
    /// Order filled event.
    OrderFilled,
}

/// Reason for order cancellation.
#[derive(Clone, Copy, Debug, Eq, PartialEq, Hash, Structural)]
pub enum ArchitectCancelReason {
    /// User requested cancellation.
    UserRequested,
}

/// Reason for cancel rejection.
#[derive(Clone, Copy, Debug, Eq, PartialEq, Hash, Structural)]
pub enum ArchitectCancelRejectionReason {
    /// Order not found or already canceled.
    OrderNotFound,
}

} // verus!
