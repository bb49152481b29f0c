//! Bookkeeping core of a φ accrual failure detector.
//!
//! The detector keeps a bounded history of recent heartbeat inter-arrival
//! samples and smooths each raw sample with Holt's linear trend method before
//! it enters that history. This crate holds the parts of that machinery whose
//! behaviour does not depend on floating-point arithmetic:
//!
//! - [`Window`]: a fixed-capacity history that keeps the most recent samples
//!   in arrival order and reports which sample, if any, it dropped, so that a
//!   caller can maintain running sums in O(1).
//! - [`Stage`]: the forward-only stages of the double exponential smoother
//!   (fresh, seeded with one sample, running with a level and a trend).
mod stage;
mod window;

pub use stage::Stage;
pub use window::{lemma_evicts_first, lemma_holds_latest, pushed, pushed_all, retained, Window};
