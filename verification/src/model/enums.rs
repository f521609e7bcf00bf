//! Domain enumerations of the trading model.

use vstd::prelude::*;

verus! {

/// The side of the aggressor in a trade.
#[derive(Debug, Clone, Copy, PartialEq, Eq, Hash, Structural)]
pub enum AggressorSide {
    NoAggressor,
    Buyer,
    Seller,
}

/// The side of an order.
#[derive(Debug, Clone, Copy, PartialEq, Eq, Hash, Structural)]
pub enum OrderSide {
    NoOrderSide,
    Buy,
    Sell,
}

/// The side of a position.
#[derive(Debug, Clone, Copy, PartialEq, Eq, Hash, Structural)]
pub enum PositionSide {
    NoPositionSide,
    Flat,
    Long,
    Short,
}

/// The side of a position, always specified.
#[derive(Debug, Clone, Copy, PartialEq, Eq, Hash, Structural)]
pub enum PositionSideSpecified {
    Flat,
    Long,
    Short,
}

/// The status of an order in its life cycle.
#[derive(Debug, Clone, Copy, PartialEq, Eq, Hash, Structural)]
pub enum OrderStatus {
    Initialized,
    Denied,
    Emulated,
    Released,
    Submitted,
    Accepted,
    Rejected,
    Canceled,
    Expired,
    Triggered,
    PendingUpdate,
    PendingCancel,
    PartiallyFilled,
    Filled,
}

/// How long an order remains in force.
#[derive(Debug, Clone, Copy, PartialEq, Eq, Hash, Structural)]
pub enum TimeInForce {
    Gtc,
    Ioc,
    Fok,
    Gtd,
    Day,
    AtTheOpen,
    AtTheClose,
}

/// The type of an order.
#[derive(Debug, Clone, Copy, PartialEq, Eq, Hash, Structural)]
pub enum OrderType {
    Market,
    Limit,
    StopMarket,
    StopLimit,
    MarketToLimit,
    MarketIfTouched,
    LimitIfTouched,
    TrailingStopMarket,
    TrailingStopLimit,
}

/// Whether a fill added or removed liquidity.
#[derive(Debug, Clone, Copy, PartialEq, Eq, Hash, Structural)]
pub enum LiquiditySide {
    NoLiquiditySide,
    Maker,
    Taker,
}

/// The method by which bars are aggregated.
#[derive(Debug, Clone, Copy, PartialEq, Eq, Hash, Structural)]
pub enum BarAggregation {
    Tick,
    Volume,
    Value,
    Millisecond,
    Second,
    Minute,
    Hour,
    Day,
    Week,
    Month,
}

/// The price that bars are built from.
#[derive(Debug, Clone, Copy, PartialEq, Eq, Hash, Structural)]
pub enum PriceType {
    Bid,
    Ask,
    Mid,
    Last,
    Mark,
}

/// The granularity of an order book.
#[allow(non_camel_case_types)]
#[derive(Debug, Clone, Copy, PartialEq, Eq, Hash, Structural)]
pub enum BookType {
    L1_MBP,
    L2_MBP,
    L3_MBO,
}

/// The type of a trading account.
#[derive(Debug, Clone, Copy, PartialEq, Eq, Hash, Structural)]
pub enum AccountType {
    Cash,
    Margin,
    Betting,
}

} // verus!
