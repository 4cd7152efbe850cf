//! A background price-feed simulator: an engine that generates synthetic quotes
//! for a set of tracked symbols, hands each one to a listener and buffers it in a
//! FIFO queue that a consumer drains at its own pace.
//!
//! Prices are fixed-point integers counted in millionths of a currency unit.

mod engine;
mod simulation;
mod sources;
mod state;
mod update;

pub use update::{
    apply_delta, next_price, PriceListener, PriceUpdate, BASE_PRICE_HIGH, BASE_PRICE_LOW,
    DELTA_BOUND, PRICE_FLOOR, STEP_INTERVAL_MS,
};
pub use sources::{current_timestamp_ms, timestamp_from_elapsed, timestamp_spec};
pub use simulation::{
    first_occurrences, lemma_walk_stays_above_floor, names, one_step_apart, walk, SimulationContext,
};
pub use state::{
    all_above_floor, apply_op, apply_ops, drain_all, drain_count, lemma_cancel_stays_until_stopped,
    lemma_drains_keep_order, lemma_empty_start_is_no_op, lemma_second_start_is_no_op, start_spec,
    EngineOp, EngineState, EngineView,
};
pub use engine::TickerEngine;
