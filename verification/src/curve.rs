//! The curve record and the operations that price and settle trades on it.

use vstd::prelude::*;
use crate::arith::{lemma_product_fits_u128, lemma_share_bounded};
use crate::constants::{PRICE_SCALE, VOLUME_WINDOW};
use crate::errors::HypeBondError;

verus! {

/// Pricing regime of a curve.
#[derive(Clone, Copy, Debug, PartialEq, Eq, Structural)]
pub enum CurveState {
    /// Initial phase: the price decays linearly with time.
    PriceDiscovery,
    /// Second phase: constant-product pricing on the virtual reserves.
    BondingCurve,
}

impl Default for CurveState {
    fn default() -> (state: Self)
        ensures
            state == CurveState::PriceDiscovery,
    {
        CurveState::PriceDiscovery
    }
}

/// State of one token launch: reserves, protection parameters and the
/// parameters of the discovery phase.
#[derive(Clone, Copy, Debug, PartialEq, Eq, Structural)]
pub struct BondingCurve {
    /// Synthetic token reserve of the constant-product phase.
    pub virtual_token_reserves: u64,
    /// Synthetic SOL reserve of the constant-product phase.
    pub virtual_sol_reserves: u64,
    /// Tokens actually held for the curve.
    pub real_token_reserves: u64,
    /// Lamports actually held for the curve.
    pub real_sol_reserves: u64,
    /// Total issuable token quantity.
    pub token_total_supply: u64,
    /// Set by the caller once the curve accepts no more trades.
    pub complete: bool,
    /// Volume traded since `last_hour_timestamp`.
    pub last_hour_volume: u64,
    /// Start of the current volume window, unix seconds.
    pub last_hour_timestamp: i64,
    /// Smallest admissible trade.
    pub min_trade_amount: u64,
    /// Largest admissible trade.
    pub max_trade_amount: u64,
    /// Constant part of the dynamic multiplier, basis points.
    pub base_slippage: u64,
    /// Part of the dynamic multiplier added per volume threshold, basis points.
    pub volume_multiplier: u64,
    /// Current pricing regime.
    pub curve_state: CurveState,
    /// Start of the discovery phase, unix seconds.
    pub discovery_start_time: i64,
    /// Length of the discovery phase, seconds.
    pub discovery_duration: i64,
    /// Price at the start of discovery.
    pub discovery_start_price: u64,
    /// Price at the end of discovery.
    pub discovery_end_price: u64,
    /// Price fixed when the curve left discovery.
    pub clearing_price: u64,
}

impl Default for BondingCurve {
    fn default() -> (curve: Self)
        ensures
            curve == (BondingCurve {
                virtual_token_reserves: 0,
                virtual_sol_reserves: 0,
                real_token_reserves: 0,
                real_sol_reserves: 0,
                token_total_supply: 0,
                complete: false,
                last_hour_volume: 0,
                last_hour_timestamp: 0,
                min_trade_amount: 0,
                max_trade_amount: 0,
                base_slippage: 0,
                volume_multiplier: 0,
                curve_state: CurveState::PriceDiscovery,
                discovery_start_time: 0,
                discovery_duration: 0,
                discovery_start_price: 0,
                discovery_end_price: 0,
                clearing_price: 0,
            }),
    {
        BondingCurve {
            virtual_token_reserves: 0,
            virtual_sol_reserves: 0,
            real_token_reserves: 0,
            real_sol_reserves: 0,
            token_total_supply: 0,
            complete: false,
            last_hour_volume: 0,
            last_hour_timestamp: 0,
            min_trade_amount: 0,
            max_trade_amount: 0,
            base_slippage: 0,
            volume_multiplier: 0,
            curve_state: CurveState::PriceDiscovery,
            discovery_start_time: 0,
            discovery_duration: 0,
            discovery_start_price: 0,
            discovery_end_price: 0,
            clearing_price: 0,
        }
    }
}

/// Whether `x` is a value of an unsigned 64-bit integer.
pub open spec fn fits_u64(x: int) -> bool {
    0 <= x <= u64::MAX
}

/// The virtual SOL reserve that prices `tokens` virtual tokens at
/// `clearing_price`: the whole lamports per token at that price, times the
/// tokens, over the price scale, rounded down. Zero at a clearing price of
/// zero.
pub open spec fn bootstrap_sol_reserves(tokens: int, clearing_price: int) -> int {
    if clearing_price == 0 {
        0
    } else {
        tokens * ((PRICE_SCALE as int) / clearing_price) / (PRICE_SCALE as int)
    }
}

/// The virtual SOL reserve at the transition lies between zero and the
/// number of virtual tokens.
pub proof fn lemma_bootstrap_bounded(tokens: int, clearing_price: int)
    requires
        0 <= tokens,
        0 <= clearing_price,
    ensures
        0 <= bootstrap_sol_reserves(tokens, clearing_price) <= tokens,
{
    if clearing_price != 0 {
        let per_token = (PRICE_SCALE as int) / clearing_price;
        assert(0 <= per_token <= PRICE_SCALE) by (nonlinear_arith)
            requires
                per_token == (PRICE_SCALE as int) / clearing_price,
                0 < clearing_price,
                0 <= PRICE_SCALE,
        ;
        lemma_share_bounded(tokens, per_token, PRICE_SCALE as int);
    }
}

impl BondingCurve {
    /// Seconds from the start of discovery to `now`; negative before it.
    pub open spec fn elapsed(self, now: i64) -> int {
        now - self.discovery_start_time
    }

    /// Whether the discovery window has run out at `now`.
    pub open spec fn discovery_over(self, now: i64) -> bool {
        self.elapsed(now) >= self.discovery_duration
    }

    /// Whether the curve is due to leave discovery at `now`.
    pub open spec fn transition_due(self, now: i64) -> bool {
        self.curve_state == CurveState::PriceDiscovery && self.discovery_over(now)
    }

    /// The curve after it left discovery: the end price becomes the clearing
    /// price, the tokens not held in the real reserve become the virtual
    /// token reserve, and the virtual SOL reserve prices them at the clearing
    /// price.
    pub open spec fn transitioned(self) -> BondingCurve {
        let tokens = self.token_total_supply - self.real_token_reserves;
        BondingCurve {
            curve_state: CurveState::BondingCurve,
            clearing_price: self.discovery_end_price,
            virtual_token_reserves: tokens as u64,
            virtual_sol_reserves: bootstrap_sol_reserves(tokens, self.discovery_end_price as int) as u64,
            ..self
        }
    }

    /// The curve after the phase check at `now`: unchanged unless the
    /// transition is due, and `MathOverflow` where it is due and the real
    /// token reserve exceeds the total supply.
    pub open spec fn advance_result(self, now: i64) -> Result<BondingCurve, HypeBondError> {
        if !self.transition_due(now) {
            Ok(self)
        } else if self.real_token_reserves <= self.token_total_supply {
            Ok(self.transitioned())
        } else {
            Err(HypeBondError::MathOverflow)
        }
    }

    /// The curve after a trade of `token_amount` tokens for `sol_amount`
    /// lamports, or `MathOverflow` if a reserve would leave the 64-bit range
    /// or, in the constant-product phase, the product of the virtual reserves
    /// does not fit in 64 bits before or after the trade.
    ///
    /// A buy takes tokens out of the real reserves and puts lamports in; a
    /// sell does the reverse. In the constant-product phase the virtual token
    /// reserve moves against the real one and the virtual SOL reserve against
    /// the real SOL reserve; during discovery the virtual reserves stay.
    pub open spec fn settle_result(self, token_amount: u64, sol_amount: u64, is_buy: bool) -> Result<
        BondingCurve,
        HypeBondError,
    > {
        let tokens: int = if is_buy { token_amount as int } else { -(token_amount as int) };
        let lamports: int = if is_buy { sol_amount as int } else { -(sol_amount as int) };
        let moves_virtual = self.curve_state == CurveState::BondingCurve;
        let real_token = self.real_token_reserves - tokens;
        let real_sol = self.real_sol_reserves + lamports;
        let virtual_token = self.virtual_token_reserves + if moves_virtual { tokens } else { 0 };
        let virtual_sol = self.virtual_sol_reserves - if moves_virtual { lamports } else { 0 };
        let product_fits = fits_u64(self.virtual_token_reserves * self.virtual_sol_reserves) && fits_u64(
            virtual_token * virtual_sol,
        );
        if fits_u64(real_token) && fits_u64(real_sol) && fits_u64(virtual_token) && fits_u64(virtual_sol)
            && (moves_virtual ==> product_fits) {
            Ok(
                BondingCurve {
                    virtual_token_reserves: virtual_token as u64,
                    virtual_sol_reserves: virtual_sol as u64,
                    real_token_reserves: real_token as u64,
                    real_sol_reserves: real_sol as u64,
                    ..self
                },
            )
        } else {
            Err(HypeBondError::MathOverflow)
        }
    }

    /// Whether the volume window that started at `last_hour_timestamp` has
    /// run out at `now`.
    pub open spec fn window_expired(self, now: i64) -> bool {
        now - self.last_hour_timestamp > VOLUME_WINDOW
    }

    /// The curve after `amount` was added to the traded volume at `now`: a
    /// window that has run out starts again at `now` with `amount` alone,
    /// otherwise the volume grows by `amount` and stops at the 64-bit maximum.
    pub open spec fn with_volume(self, amount: u64, now: i64) -> BondingCurve {
        if self.window_expired(now) {
            BondingCurve { last_hour_volume: amount, last_hour_timestamp: now, ..self }
        } else if self.last_hour_volume + amount > u64::MAX {
            BondingCurve { last_hour_volume: u64::MAX, ..self }
        } else {
            BondingCurve { last_hour_volume: (self.last_hour_volume + amount) as u64, ..self }
        }
    }

    /// The curve set up for discovery.
    pub open spec fn with_discovery(
        self,
        start_time: i64,
        duration: i64,
        start_price: u64,
        end_price: u64,
        total_supply: u64,
    ) -> BondingCurve {
        BondingCurve {
            curve_state: CurveState::PriceDiscovery,
            discovery_start_time: start_time,
            discovery_duration: duration,
            discovery_start_price: start_price,
            discovery_end_price: end_price,
            token_total_supply: total_supply,
            real_token_reserves: total_supply,
            ..self
        }
    }

    /// Moves the curve from discovery to the constant-product phase once
    /// the discovery window has run out at `current_time`; does nothing
    /// before that and nothing in the constant-product phase.
    pub fn check_and_update_state(&mut self, current_time: i64) -> (result: Result<(), HypeBondError>)
        ensures
            match old(self).advance_result(current_time) {
                Ok(next) => result is Ok && *final(self) == next,
                Err(e) => result == Err::<(), HypeBondError>(e) && *final(self) == *old(self),
            },
            result is Ok && old(self).transition_due(current_time) ==> {
                &&& final(self).virtual_token_reserves == old(self).token_total_supply - old(
                    self,
                ).real_token_reserves
                &&& final(self).virtual_sol_reserves == bootstrap_sol_reserves(
                    final(self).virtual_token_reserves as int,
                    old(self).discovery_end_price as int,
                )
                &&& final(self).virtual_sol_reserves <= final(self).virtual_token_reserves
            },
    {
        if self.curve_state == CurveState::BondingCurve {
            return Ok(());
        }
        let elapsed: i128 = current_time as i128 - self.discovery_start_time as i128;
        if elapsed < self.discovery_duration as i128 {
            return Ok(());
        }
        let tokens = match self.token_total_supply.checked_sub(self.real_token_reserves) {
            Some(tokens) => tokens,
            None => {
                return Err(HypeBondError::MathOverflow);
            },
        };
        let clearing_price = self.discovery_end_price;
        let lamports: u64 = if clearing_price == 0 {
            0
        } else {
            let per_token = PRICE_SCALE / clearing_price;
            proof {
                lemma_product_fits_u128(tokens, per_token);
                lemma_bootstrap_bounded(tokens as int, clearing_price as int);
            }
            ((tokens as u128) * (per_token as u128) / (PRICE_SCALE as u128)) as u64
        };
        self.curve_state = CurveState::BondingCurve;
        self.clearing_price = clearing_price;
        self.virtual_token_reserves = tokens;
        self.virtual_sol_reserves = lamports;
        Ok(())
    }

    /// Applies a settled trade to the reserves. Either every reserve moves or
    /// none does. A settlement never takes the product of the virtual
    /// reserves out of the 64-bit range: in the constant-product phase it
    /// fails where the product does not fit before or after the trade, and
    /// during discovery it leaves the virtual reserves as they are.
    pub fn update_reserves(&mut self, token_amount: u64, sol_amount: u64, is_buy: bool) -> (result: Result<
        (),
        HypeBondError,
    >)
        ensures
            match old(self).settle_result(token_amount, sol_amount, is_buy) {
                Ok(next) => result is Ok && *final(self) == next,
                Err(e) => result == Err::<(), HypeBondError>(e) && *final(self) == *old(self),
            },
            result matches Err(e) ==> e == HypeBondError::MathOverflow,
            result is Ok && old(self).curve_state == CurveState::BondingCurve ==> old(
                self,
            ).virtual_token_reserves * old(self).virtual_sol_reserves <= u64::MAX,
            result is Ok && old(self).virtual_token_reserves * old(self).virtual_sol_reserves <= u64::MAX
                ==> final(self).virtual_token_reserves * final(self).virtual_sol_reserves <= u64::MAX,
    {
        let moves_virtual = self.curve_state == CurveState::BondingCurve;
        let real_token = if is_buy {
            self.real_token_reserves.checked_sub(token_amount)
        } else {
            self.real_token_reserves.checked_add(token_amount)
        };
        let real_sol = if is_buy {
            self.real_sol_reserves.checked_add(sol_amount)
        } else {
            self.real_sol_reserves.checked_sub(sol_amount)
        };
        let virtual_token = if !moves_virtual {
            Some(self.virtual_token_reserves)
        } else if is_buy {
            self.virtual_token_reserves.checked_add(token_amount)
        } else {
            self.virtual_token_reserves.checked_sub(token_amount)
        };
        let virtual_sol = if !moves_virtual {
            Some(self.virtual_sol_reserves)
        } else if is_buy {
            self.virtual_sol_reserves.checked_sub(sol_amount)
        } else {
            self.virtual_sol_reserves.checked_add(sol_amount)
        };
        match (real_token, real_sol, virtual_token, virtual_sol) {
            (Some(rt), Some(rs), Some(vt), Some(vs)) => {
                if moves_virtual {
                    let before = self.virtual_token_reserves.checked_mul(self.virtual_sol_reserves);
                    let after = vt.checked_mul(vs);
                    if before.is_none() || after.is_none() {
                        return Err(HypeBondError::MathOverflow);
                    }
                }
                self.real_token_reserves = rt;
                self.real_sol_reserves = rs;
                self.virtual_token_reserves = vt;
                self.virtual_sol_reserves = vs;
                Ok(())
            },
            _ => Err(HypeBondError::MathOverflow),
        }
    }

    /// Adds a trade of `amount` at `timestamp` to the volume window.
    pub fn update_volume(&mut self, amount: u64, timestamp: i64)
        ensures
            *final(self) == old(self).with_volume(amount, timestamp),
            final(self).last_hour_timestamp >= old(self).last_hour_timestamp,
    {
        let since: i128 = timestamp as i128 - self.last_hour_timestamp as i128;
        if since > VOLUME_WINDOW as i128 {
            self.last_hour_volume = amount;
            self.last_hour_timestamp = timestamp;
        } else {
            self.last_hour_volume = self.last_hour_volume.saturating_add(amount);
        }
    }

    /// Starts the discovery phase with the given window, price band and
    /// supply; the whole supply becomes the real token reserve.
    pub fn initialize_discovery(
        &mut self,
        start_time: i64,
        duration: i64,
        start_price: u64,
        end_price: u64,
        total_supply: u64,
    ) -> (result: Result<(), HypeBondError>)
        ensures
            result is Ok,
            *final(self) == old(self).with_discovery(start_time, duration, start_price, end_price, total_supply),
    {
        self.curve_state = CurveState::PriceDiscovery;
        self.discovery_start_time = start_time;
        self.discovery_duration = duration;
        self.discovery_start_price = start_price;
        self.discovery_end_price = end_price;
        self.token_total_supply = total_supply;
        self.real_token_reserves = total_supply;
        Ok(())
    }
}

} // verus!
