//! Domain data specifications of the trading model.

use vstd::prelude::*;

use super::enums::{BarAggregation, PriceType};

verus! {

/// A bar specification: `step` units of `aggregation`, built from `price_type`.
#[derive(Debug, Clone, Copy, PartialEq, Eq, Hash, Structural)]
pub struct BarSpecification {
    pub step: usize,
    pub aggregation: BarAggregation,
    pub price_type: PriceType,
}

impl BarSpecification {
    /// Creates a new bar specification; `step` must be positive.
    pub fn new(step: usize, aggregation: BarAggregation, price_type: PriceType) -> (r: Self)
        requires
            step > 0,
        ensures
            r == (BarSpecification { step, aggregation, price_type }),
    {
        BarSpecification { step, aggregation, price_type }
    }
}

} // verus!
