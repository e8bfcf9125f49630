//! Core logic of a real-time cursor visualizer: a fading trail of recent
//! pointer positions, the configuration model with its fail-open loading
//! policy, and the per-frame coordinate scaling.
//!
//! All quantities are fixed-point integers ([`units::FP_ONE`] ticks to the
//! unit); the surrounding application converts at its edges, polls the
//! pointer, and performs the paint plans these modules compute.

pub mod config;
pub mod frame;
pub mod trail;
pub mod units;
