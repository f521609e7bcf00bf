//! The Binance Spot SBE schema: identifiers, template ids and enumerations.

use vstd::prelude::*;

verus! {

/// Schema identifier of the Binance Spot SBE schema.
pub const SBE_SCHEMA_ID: u16 = 3;

/// Schema version decoded by this crate.
pub const SBE_SCHEMA_VERSION: u16 = 1;

/// Length of the SBE message header in bytes.
pub const HEADER_LENGTH: usize = 8;

/// Template id of `PingResponse`.
pub const PING_TEMPLATE_ID: u16 = 101;

/// Template id of `ServerTimeResponse`.
pub const SERVER_TIME_TEMPLATE_ID: u16 = 102;

/// Template id of `DepthResponse`.
pub const DEPTH_TEMPLATE_ID: u16 = 200;

/// Template id of `TradesResponse`.
pub const TRADES_TEMPLATE_ID: u16 = 201;

/// Template id of `NewOrderFullResponse`.
pub const NEW_ORDER_FULL_TEMPLATE_ID: u16 = 302;

/// Template id of `OrderResponse`.
pub const ORDER_TEMPLATE_ID: u16 = 304;

/// Template id of `CancelOrderResponse`.
pub const CANCEL_ORDER_TEMPLATE_ID: u16 = 305;

/// Template id of `CancelOpenOrdersResponse`.
pub const CANCEL_OPEN_ORDERS_TEMPLATE_ID: u16 = 306;

/// Template id of `OrdersResponse`.
pub const ORDERS_TEMPLATE_ID: u16 = 308;

/// Template id of `AccountResponse`.
pub const ACCOUNT_TEMPLATE_ID: u16 = 400;

/// Template id of `AccountTradesResponse`.
pub const ACCOUNT_TRADES_TEMPLATE_ID: u16 = 401;

/// SBE boolean.
#[derive(Debug, Clone, Copy, PartialEq, Eq, Structural)]
pub enum BoolEnum {
    False,
    True,
    NonRepresentable,
    NullVal,
}

impl BoolEnum {
    pub open spec fn spec_from_u8(v: u8) -> Self {
        if v == 0 {
            BoolEnum::False
        } else if v == 1 {
            BoolEnum::True
        } else if v == 254 {
            BoolEnum::NonRepresentable
        } else {
            BoolEnum::NullVal
        }
    }

    /// Decodes the wire value.
    pub fn from_u8(v: u8) -> (r: Self)
        ensures
            r == Self::spec_from_u8(v),
    {
        if v == 0 {
            BoolEnum::False
        } else if v == 1 {
            BoolEnum::True
        } else if v == 254 {
            BoolEnum::NonRepresentable
        } else {
            BoolEnum::NullVal
        }
    }
}

/// Order side.
#[derive(Debug, Clone, Copy, PartialEq, Eq, Structural)]
pub enum OrderSide {
    Buy,
    Sell,
    NonRepresentable,
    NullVal,
}

impl OrderSide {
    pub open spec fn spec_from_u8(v: u8) -> Self {
        if v == 0 {
            OrderSide::Buy
        } else if v == 1 {
            OrderSide::Sell
        } else if v == 254 {
            OrderSide::NonRepresentable
        } else {
            OrderSide::NullVal
        }
    }

    /// Decodes the wire value.
    pub fn from_u8(v: u8) -> (r: Self)
        ensures
            r == Self::spec_from_u8(v),
    {
        if v == 0 {
            OrderSide::Buy
        } else if v == 1 {
            OrderSide::Sell
        } else if v == 254 {
            OrderSide::NonRepresentable
        } else {
            OrderSide::NullVal
        }
    }
}

/// Order status.
#[derive(Debug, Clone, Copy, PartialEq, Eq, Structural)]
pub enum OrderStatus {
    New,
    PartiallyFilled,
    Filled,
    Canceled,
    PendingCancel,
    Rejected,
    Expired,
    ExpiredInMatch,
    PendingNew,
    Unknown,
    NonRepresentable,
    NullVal,
}

impl OrderStatus {
    pub open spec fn spec_from_u8(v: u8) -> Self {
        if v == 0 {
            OrderStatus::New
        } else if v == 1 {
            OrderStatus::PartiallyFilled
        } else if v == 2 {
            OrderStatus::Filled
        } else if v == 3 {
            OrderStatus::Canceled
        } else if v == 4 {
            OrderStatus::PendingCancel
        } else if v == 5 {
            OrderStatus::Rejected
        } else if v == 6 {
            OrderStatus::Expired
        } else if v == 9 {
            OrderStatus::ExpiredInMatch
        } else if v == 11 {
            OrderStatus::PendingNew
        } else if v == 253 {
            OrderStatus::Unknown
        } else if v == 254 {
            OrderStatus::NonRepresentable
        } else {
            OrderStatus::NullVal
        }
    }

    /// Decodes the wire value.
    pub fn from_u8(v: u8) -> (r: Self)
        ensures
            r == Self::spec_from_u8(v),
    {
        if v == 0 {
            OrderStatus::New
        } else if v == 1 {
            OrderStatus::PartiallyFilled
        } else if v == 2 {
            OrderStatus::Filled
        } else if v == 3 {
            OrderStatus::Canceled
        } else if v == 4 {
            OrderStatus::PendingCancel
        } else if v == 5 {
            OrderStatus::Rejected
        } else if v == 6 {
            OrderStatus::Expired
        } else if v == 9 {
            OrderStatus::ExpiredInMatch
        } else if v == 11 {
            OrderStatus::PendingNew
        } else if v == 253 {
            OrderStatus::Unknown
        } else if v == 254 {
            OrderStatus::NonRepresentable
        } else {
            OrderStatus::NullVal
        }
    }
}

/// Order type.
#[derive(Debug, Clone, Copy, PartialEq, Eq, Structural)]
pub enum OrderType {
    Market,
    Limit,
    StopLoss,
    StopLossLimit,
    TakeProfit,
    TakeProfitLimit,
    LimitMaker,
    NonRepresentable,
    NullVal,
}

impl OrderType {
    pub open spec fn spec_from_u8(v: u8) -> Self {
        if v == 0 {
            OrderType::Market
        } else if v == 1 {
            OrderType::Limit
        } else if v == 2 {
            OrderType::StopLoss
        } else if v == 3 {
            OrderType::StopLossLimit
        } else if v == 4 {
            OrderType::TakeProfit
        } else if v == 5 {
            OrderType::TakeProfitLimit
        } else if v == 6 {
            OrderType::LimitMaker
        } else if v == 254 {
            OrderType::NonRepresentable
        } else {
            OrderType::NullVal
        }
    }

    /// Decodes the wire value.
    pub fn from_u8(v: u8) -> (r: Self)
        ensures
            r == Self::spec_from_u8(v),
    {
        if v == 0 {
            OrderType::Market
        } else if v == 1 {
            OrderType::Limit
        } else if v == 2 {
            OrderType::StopLoss
        } else if v == 3 {
            OrderType::StopLossLimit
        } else if v == 4 {
            OrderType::TakeProfit
        } else if v == 5 {
            OrderType::TakeProfitLimit
        } else if v == 6 {
            OrderType::LimitMaker
        } else if v == 254 {
            OrderType::NonRepresentable
        } else {
            OrderType::NullVal
        }
    }
}

/// Time in force.
#[derive(Debug, Clone, Copy, PartialEq, Eq, Structural)]
pub enum TimeInForce {
    Gtc,
    Ioc,
    Fok,
    NonRepresentable,
    NullVal,
}

impl TimeInForce {
    pub open spec fn spec_from_u8(v: u8) -> Self {
        if v == 0 {
            TimeInForce::Gtc
        } else if v == 1 {
            TimeInForce::Ioc
        } else if v == 2 {
            TimeInForce::Fok
        } else if v == 254 {
            TimeInForce::NonRepresentable
        } else {
            TimeInForce::NullVal
        }
    }

    /// Decodes the wire value.
    pub fn from_u8(v: u8) -> (r: Self)
        ensures
            r == Self::spec_from_u8(v),
    {
        if v == 0 {
            TimeInForce::Gtc
        } else if v == 1 {
            TimeInForce::Ioc
        } else if v == 2 {
            TimeInForce::Fok
        } else if v == 254 {
            TimeInForce::NonRepresentable
        } else {
            TimeInForce::NullVal
        }
    }
}

/// Self-trade prevention mode.
#[derive(Debug, Clone, Copy, PartialEq, Eq, Structural)]
pub enum SelfTradePreventionMode {
    NoPrevention,
    ExpireTaker,
    ExpireMaker,
    ExpireBoth,
    Decrement,
    NonRepresentable,
    NullVal,
}

impl SelfTradePreventionMode {
    pub open spec fn spec_from_u8(v: u8) -> Self {
        if v == 1 {
            SelfTradePreventionMode::NoPrevention
        } else if v == 2 {
            SelfTradePreventionMode::ExpireTaker
        } else if v == 3 {
            SelfTradePreventionMode::ExpireMaker
        } else if v == 4 {
            SelfTradePreventionMode::ExpireBoth
        } else if v == 5 {
            SelfTradePreventionMode::Decrement
        } else if v == 254 {
            SelfTradePreventionMode::NonRepresentable
        } else {
            SelfTradePreventionMode::NullVal
        }
    }

    /// Decodes the wire value.
    pub fn from_u8(v: u8) -> (r: Self)
        ensures
            r == Self::spec_from_u8(v),
    {
        if v == 1 {
            SelfTradePreventionMode::NoPrevention
        } else if v == 2 {
            SelfTradePreventionMode::ExpireTaker
        } else if v == 3 {
            SelfTradePreventionMode::ExpireMaker
        } else if v == 4 {
            SelfTradePreventionMode::ExpireBoth
        } else if v == 5 {
            SelfTradePreventionMode::Decrement
        } else if v == 254 {
            SelfTradePreventionMode::NonRepresentable
        } else {
            SelfTradePreventionMode::NullVal
        }
    }
}

/// Account type.
#[derive(Debug, Clone, Copy, PartialEq, Eq, Structural)]
pub enum AccountType {
    Spot,
    NonRepresentable,
    NullVal,
}

impl AccountType {
    pub open spec fn spec_from_u8(v: u8) -> Self {
        if v == 0 {
            AccountType::Spot
        } else if v == 254 {
            AccountType::NonRepresentable
        } else {
            AccountType::NullVal
        }
    }

    /// Decodes the wire value.
    pub fn from_u8(v: u8) -> (r: Self)
        ensures
            r == Self::spec_from_u8(v),
    {
        if v == 0 {
            AccountType::Spot
        } else if v == 254 {
            AccountType::NonRepresentable
        } else {
            AccountType::NullVal
        }
    }

    /// The schema name of the value.
    pub open spec fn spec_name(self) -> Seq<char> {
        match self {
            AccountType::Spot => "Spot"@,
            AccountType::NonRepresentable => "NonRepresentable"@,
            AccountType::NullVal => "NullVal"@,
        }
    }

    /// The schema name of the value, as a `String`.
    pub fn name(&self) -> (r: String)
        ensures
            r@ == self.spec_name(),
    {
        match self {
            AccountType::Spot => "Spot".to_owned(),
            AccountType::NonRepresentable => "NonRepresentable".to_owned(),
            AccountType::NullVal => "NullVal".to_owned(),
        }
    }
}

} // verus!
