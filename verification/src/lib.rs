//! Pricing and bookkeeping for a token launch.
//!
//! A launch sells its tokens on a curve with two phases: a price discovery
//! auction whose price decays linearly with time, followed by a
//! constant-product market maker. The curve quotes trades, widens the spread
//! with the size of a trade and with the recent volume, and keeps the
//! reserves and a one-hour volume window. Around the curve stand the
//! instructions that trade on it and that keep a project's milestones and the
//! tokens they unlock.
//!
//! Nothing here reads a clock or moves an asset: every operation is a function
//! of the records and numbers it is given.

mod arith;
pub mod constants;
pub mod contexts;
pub mod curve;
pub mod errors;
pub mod instructions;
pub mod laws;
pub mod pricing;
