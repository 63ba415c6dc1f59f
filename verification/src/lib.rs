//! Short-term price movement of a trading pair: lookback tables, percentage
//! changes against historical closes, and their textual rendering.

pub mod engine;
pub mod granularity;
pub mod lookback;
pub mod render;
pub mod rounding;
