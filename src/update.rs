use vstd::prelude::*;

verus! {

/// Lowest price ever emitted: 0.01 of a unit, in millionths.
pub const PRICE_FLOOR: u64 = 10_000;

/// Base prices are drawn uniformly from `[BASE_PRICE_LOW, BASE_PRICE_HIGH)`,
/// that is [90.0, 110.0) in whole units.
pub const BASE_PRICE_LOW: u64 = 90_000_000;

pub const BASE_PRICE_HIGH: u64 = 110_000_000;

/// Each step moves a price by a delta drawn uniformly from
/// `[-DELTA_BOUND, DELTA_BOUND)`, that is [-1.0, 1.0) in whole units.
pub const DELTA_BOUND: i64 = 1_000_000;

/// Pause between two simulation steps, in milliseconds.
pub const STEP_INTERVAL_MS: u64 = 500;

/// One simulated quote. `price` is in millionths of a unit.
#[derive(Debug, Clone)]
pub struct PriceUpdate {
    pub symbol: String,
    pub price: u64,
    pub timestamp_ms: i64,
}

impl PriceUpdate {
    /// A copy of this update, equal to it in every field.
    pub fn duplicate(&self) -> (r: PriceUpdate)
        ensures
            r == *self,
    {
        PriceUpdate { symbol: self.symbol.clone(), price: self.price, timestamp_ms: self.timestamp_ms }
    }
}

/// Receives every update as the producer generates it, on the producer's own
/// thread. Implementations should return promptly: a slow listener stalls the
/// cadence of every symbol.
pub trait PriceListener {
    fn on_price(&self, update: PriceUpdate);
}

/// The price after one random-walk step: `price + delta`, held at or above
/// `PRICE_FLOOR`, and at or below the largest representable price.
pub open spec fn next_price(price: int, delta: int) -> int {
    let moved = price + delta;
    if moved < PRICE_FLOOR as int {
        PRICE_FLOOR as int
    } else if moved > u64::MAX as int {
        u64::MAX as int
    } else {
        moved
    }
}

/// Applies one random-walk step to a price.
pub fn apply_delta(price: u64, delta: i64) -> (r: u64)
    ensures
        r as int == next_price(price as int, delta as int),
        r >= PRICE_FLOOR,
{
    let moved: i128 = price as i128 + delta as i128;
    if moved < PRICE_FLOOR as i128 {
        PRICE_FLOOR
    } else if moved > u64::MAX as i128 {
        u64::MAX
    } else {
        moved as u64
    }
}

} // verus!
