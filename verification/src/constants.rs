//! Fixed parameters of the curve and of the instructions.

use vstd::prelude::*;

verus! {

/// Fixed-point scale of prices: at a price of `PRICE_SCALE` one token costs
/// one lamport.
pub const PRICE_SCALE: u64 = 1_000_000_000;

/// Basis-point scale: `10_000` stands for 100%.
pub const BASIS_POINTS: u64 = 10_000;

/// Trades below this many tokens fall in the smallest size tier.
pub const SMALL_TRADE_THRESHOLD: u64 = 1_000_000;

/// Trades below this many tokens, and not in the smallest tier, fall in the
/// middle size tier; all others fall in the largest.
pub const MEDIUM_TRADE_THRESHOLD: u64 = 10_000_000;

/// Each full multiple of this volume inside the current window adds one
/// `volume_multiplier` to the dynamic multiplier.
pub const VOLUME_THRESHOLD: u64 = 100_000_000;

/// Dynamic multiplier used when the regular one does not fit in 64 bits.
pub const MAX_SLIPPAGE: u64 = 1_000;

/// Length of the volume window, in seconds.
pub const VOLUME_WINDOW: i64 = 3_600;

/// Smallest admissible trade that the configuration hands to new curves.
pub const DEFAULT_MIN_TRADE_AMOUNT: u64 = 10;

/// The largest admissible trade is the total supply divided by this.
pub const MAX_TRADE_SUPPLY_DIVISOR: u64 = 10;

/// Constant part of the dynamic multiplier that the configuration hands to
/// new curves.
pub const DEFAULT_BASE_SLIPPAGE: u64 = 100;

/// Volume part of the dynamic multiplier that the configuration hands to new
/// curves.
pub const DEFAULT_VOLUME_MULTIPLIER: u64 = 10;

/// Total supply of every project token.
pub const PROJECT_TOKEN_SUPPLY: u64 = 1_000_000_000;

/// A project has more milestones than this.
pub const MIN_MILESTONES: u8 = 3;

} // verus!
