//! Prices and quotes: the discovery price, the constant-product base price,
//! the protection multipliers and the two quotes built from them.

use vstd::prelude::*;
use crate::arith::{
    lemma_div_by_larger,
    lemma_div_cancels,
    lemma_product_fits_u128,
    lemma_share_bounded,
};
use crate::constants::{
    BASIS_POINTS,
    MAX_SLIPPAGE,
    MEDIUM_TRADE_THRESHOLD,
    PRICE_SCALE,
    SMALL_TRADE_THRESHOLD,
    VOLUME_THRESHOLD,
};
use crate::curve::{BondingCurve, CurveState};
use crate::errors::HypeBondError;
use crate::laws::lemma_discovery_price_bounded;

verus! {

/// Size-tier multiplier of a trade of `amount` tokens, in basis points: a
/// surcharge of 1%, 3% or 5% on buys and the same discount on sells, growing
/// with the size of the trade.
pub open spec fn size_tier(amount: u64, is_buy: bool) -> int {
    if amount < SMALL_TRADE_THRESHOLD {
        if is_buy { 10_100 } else { 9_900 }
    } else if amount < MEDIUM_TRADE_THRESHOLD {
        if is_buy { 10_300 } else { 9_700 }
    } else {
        if is_buy { 10_500 } else { 9_500 }
    }
}

/// `base * tier * dynamic / 10000 / 10000`, rounded down after each division,
/// where both products are non-zero and fit in 64 bits; `None` where one of
/// them is zero or does not fit.
pub open spec fn scaled_amount(base: int, tier: int, dynamic: int) -> Option<int> {
    let tiered = base * tier;
    let full = tiered * dynamic;
    if tiered == 0 || tiered > u64::MAX || full == 0 || full > u64::MAX {
        None
    } else {
        Some(full / (BASIS_POINTS as int) / (BASIS_POINTS as int))
    }
}

/// Value of `amount` tokens at `price`, a price in units of `PRICE_SCALE`,
/// rounded down.
pub open spec fn value_at(amount: u64, price: int) -> int {
    amount * price / (PRICE_SCALE as int)
}

/// What a sale of `amount` tokens returns during discovery: the value at
/// `price` less a flat 5%, the percentage taken before the price scale.
pub open spec fn discounted_value_at(amount: u64, price: int) -> int {
    amount * price * 95 / 100 / (PRICE_SCALE as int)
}

impl BondingCurve {
    /// Width of the discovery price band; zero where the end price lies
    /// above the start price.
    pub open spec fn price_range(self) -> int {
        if self.discovery_start_price >= self.discovery_end_price {
            self.discovery_start_price - self.discovery_end_price
        } else {
            0
        }
    }

    /// The discovery price at `now`: the start price until discovery starts,
    /// then the start price less the elapsed share of the price band, rounded
    /// in favour of the higher price, and the end price once the window has
    /// run out.
    pub open spec fn discovery_price(self, now: i64) -> int {
        if self.discovery_over(now) {
            self.discovery_end_price as int
        } else if self.elapsed(now) <= 0 {
            self.discovery_start_price as int
        } else {
            self.discovery_start_price - self.price_range() * self.elapsed(now) / (
            self.discovery_duration as int)
        }
    }

    /// The constant of the constant-product phase.
    pub open spec fn constant_product(self) -> int {
        self.virtual_token_reserves * self.virtual_sol_reserves
    }

    /// The virtual token reserve after a trade of `amount` at the base price.
    pub open spec fn token_reserve_after(self, amount: u64, is_buy: bool) -> int {
        if is_buy {
            self.virtual_token_reserves + amount
        } else {
            self.virtual_token_reserves - amount
        }
    }

    /// Whether the base price of a trade of `amount` is defined: the constant
    /// product fits in 64 bits, and the token reserve after the trade fits in
    /// 64 bits and is not zero.
    pub open spec fn base_price_defined(self, amount: u64, is_buy: bool) -> bool {
        &&& self.constant_product() <= u64::MAX
        &&& 0 < self.token_reserve_after(amount, is_buy) <= u64::MAX
    }

    /// The constant-product price of `amount` tokens: the distance between
    /// the virtual SOL reserve and the constant product divided by the token
    /// reserve after the trade.
    pub open spec fn base_price(self, amount: u64, is_buy: bool) -> Result<u64, HypeBondError> {
        let sol_after = self.constant_product() / self.token_reserve_after(amount, is_buy);
        if !self.base_price_defined(amount, is_buy) {
            Err(HypeBondError::MathOverflow)
        } else if is_buy {
            Ok((self.virtual_sol_reserves - sol_after) as u64)
        } else {
            Ok((sol_after - self.virtual_sol_reserves) as u64)
        }
    }

    /// The volume-based multiplier in basis points: `base_slippage` plus
    /// `volume_multiplier` for every full `VOLUME_THRESHOLD` traded in the
    /// current window, or `MAX_SLIPPAGE` where that does not fit in 64 bits.
    pub open spec fn dynamic_multiplier(self) -> int {
        let regular = self.base_slippage + (self.last_hour_volume / VOLUME_THRESHOLD)
            * self.volume_multiplier;
        if regular > u64::MAX {
            MAX_SLIPPAGE as int
        } else {
            regular
        }
    }

    /// `base_amount` after the size-tier and volume multipliers. Where the
    /// scaled amount is undefined the curve answers by phase: during discovery
    /// with `base_amount` itself, in the constant-product phase with
    /// `MathOverflow`.
    pub open spec fn protected_amount(self, base_amount: u64, amount: u64, is_buy: bool) -> Result<
        u64,
        HypeBondError,
    > {
        match scaled_amount(base_amount as int, size_tier(amount, is_buy), self.dynamic_multiplier()) {
            Some(scaled) => Ok(scaled as u64),
            None => if self.curve_state == CurveState::PriceDiscovery {
                Ok(base_amount)
            } else {
                Err(HypeBondError::MathOverflow)
            },
        }
    }

    /// What a purchase of `amount` tokens costs at `now`.
    pub open spec fn buy_quote(self, amount: u64, now: i64) -> Result<u64, HypeBondError> {
        match self.curve_state {
            CurveState::PriceDiscovery => {
                let cost = value_at(amount, self.discovery_price(now));
                if cost > u64::MAX {
                    Err(HypeBondError::MathOverflow)
                } else {
                    self.protected_amount(cost as u64, amount, true)
                }
            },
            CurveState::BondingCurve => match self.base_price(amount, true) {
                Ok(base) => self.protected_amount(base, amount, true),
                Err(e) => Err(e),
            },
        }
    }

    /// What a sale of `amount` tokens returns at `now`.
    pub open spec fn sell_quote(self, amount: u64, now: i64) -> Result<u64, HypeBondError> {
        match self.curve_state {
            CurveState::PriceDiscovery => {
                let proceeds = discounted_value_at(amount, self.discovery_price(now));
                if proceeds > u64::MAX {
                    Err(HypeBondError::MathOverflow)
                } else {
                    Ok(proceeds as u64)
                }
            },
            CurveState::BondingCurve => match self.base_price(amount, false) {
                Ok(base) => self.protected_amount(base, amount, false),
                Err(e) => Err(e),
            },
        }
    }

    /// The constant-product price of `amount` tokens, before protections.
    pub fn get_base_price(&self, amount: u64, is_buy: bool) -> (result: Result<u64, HypeBondError>)
        ensures
            result == self.base_price(amount, is_buy),
            result is Ok <==> self.base_price_defined(amount, is_buy),
            result matches Ok(price) ==> price == if is_buy {
                self.virtual_sol_reserves - self.constant_product() / self.token_reserve_after(amount, is_buy)
            } else {
                self.constant_product() / self.token_reserve_after(amount, is_buy) - self.virtual_sol_reserves
            },
            result matches Err(e) ==> e == HypeBondError::MathOverflow,
    {
        let k = match self.virtual_token_reserves.checked_mul(self.virtual_sol_reserves) {
            Some(k) => k,
            None => {
                return Err(HypeBondError::MathOverflow);
            },
        };
        let moved = if is_buy {
            self.virtual_token_reserves.checked_add(amount)
        } else {
            self.virtual_token_reserves.checked_sub(amount)
        };
        let token_after = match moved {
            Some(t) => t,
            None => {
                return Err(HypeBondError::MathOverflow);
            },
        };
        if token_after == 0 {
            return Err(HypeBondError::MathOverflow);
        }
        let sol_after = k / token_after;
        proof {
            self.lemma_sol_reserve_after(amount, is_buy);
        }
        if is_buy {
            Ok(self.virtual_sol_reserves - sol_after)
        } else {
            Ok(sol_after - self.virtual_sol_reserves)
        }
    }

    /// Where the base price is defined, a buy at the base price leaves at
    /// most the current virtual SOL reserve, and a sell at least that.
    pub proof fn lemma_sol_reserve_after(self, amount: u64, is_buy: bool)
        requires
            self.base_price_defined(amount, is_buy),
        ensures
            is_buy ==> 0 <= self.constant_product() / self.token_reserve_after(amount, is_buy)
                <= self.virtual_sol_reserves,
            !is_buy ==> self.virtual_sol_reserves <= self.constant_product()
                / self.token_reserve_after(amount, is_buy) <= u64::MAX,
    {
        let tokens = self.virtual_token_reserves as int;
        let lamports = self.virtual_sol_reserves as int;
        let k = self.constant_product();
        let after = self.token_reserve_after(amount, is_buy);
        if tokens == 0 {
            assert(k == 0) by (nonlinear_arith)
                requires
                    k == tokens * lamports,
                    tokens == 0,
            ;
            assert(is_buy);
            assert(0int / after == 0) by (nonlinear_arith)
                requires
                    after > 0,
            ;
        } else {
            lemma_div_cancels(lamports, tokens);
            assert(k / tokens == lamports);
            assert(0 <= k) by (nonlinear_arith)
                requires
                    k == tokens * lamports,
                    0 <= tokens,
                    0 <= lamports,
            ;
            if is_buy {
                lemma_div_by_larger(k, tokens, after);
            } else {
                lemma_div_by_larger(k, after, tokens);
                lemma_div_by_larger(k, 1, after);
                assert(k / 1 == k);
            }
        }
    }

    /// The price of one token at `current_time` during discovery.
    pub fn get_discovery_price(&self, current_time: i64) -> (result: Result<u64, HypeBondError>)
        ensures
            result matches Ok(price) && price == self.discovery_price(current_time),
            self.discovery_end_price <= self.discovery_start_price ==> (result matches Ok(price)
                && self.discovery_end_price <= price <= self.discovery_start_price),
            self.discovery_over(current_time) ==> result == Ok::<u64, HypeBondError>(self.discovery_end_price),
    {
        proof {
            if self.discovery_end_price <= self.discovery_start_price {
                lemma_discovery_price_bounded(*self, current_time);
            }
        }
        let elapsed: i128 = current_time as i128 - self.discovery_start_time as i128;
        if elapsed >= self.discovery_duration as i128 {
            return Ok(self.discovery_end_price);
        }
        if elapsed <= 0 {
            return Ok(self.discovery_start_price);
        }
        let range: u64 = if self.discovery_start_price >= self.discovery_end_price {
            self.discovery_start_price - self.discovery_end_price
        } else {
            0
        };
        let elapsed: u64 = elapsed as u64;
        let duration: u64 = self.discovery_duration as u64;
        proof {
            lemma_product_fits_u128(range, elapsed);
            lemma_share_bounded(range as int, elapsed as int, duration as int);
        }
        let decay: u128 = (range as u128) * (elapsed as u128) / (duration as u128);
        Ok(self.discovery_start_price - (decay as u64))
    }

    /// The size-tier multiplier of a trade, in basis points.
    fn trade_size_tier(amount: u64, is_buy: bool) -> (tier: u64)
        ensures
            tier == size_tier(amount, is_buy),
    {
        if amount < SMALL_TRADE_THRESHOLD {
            if is_buy { 10_100 } else { 9_900 }
        } else if amount < MEDIUM_TRADE_THRESHOLD {
            if is_buy { 10_300 } else { 9_700 }
        } else {
            if is_buy { 10_500 } else { 9_500 }
        }
    }

    /// The volume-based multiplier of the current window, in basis points.
    fn volume_based_multiplier(&self) -> (multiplier: u64)
        ensures
            multiplier == self.dynamic_multiplier(),
    {
        let factor = self.last_hour_volume / VOLUME_THRESHOLD;
        match factor.checked_mul(self.volume_multiplier) {
            Some(extra) => match self.base_slippage.checked_add(extra) {
                Some(regular) => regular,
                None => MAX_SLIPPAGE,
            },
            None => MAX_SLIPPAGE,
        }
    }

    /// Applies the size-tier and volume multipliers of a trade of `amount`
    /// tokens in the given direction to `base_amount`.
    pub fn apply_trade_protections(&self, base_amount: u64, amount: u64, is_buy: bool) -> (result: Result<
        u64,
        HypeBondError,
    >)
        ensures
            result == self.protected_amount(base_amount, amount, is_buy),
    {
        let tier = Self::trade_size_tier(amount, is_buy);
        let dynamic = self.volume_based_multiplier();
        let mut scaled: Option<u64> = None;
        if let Some(tiered) = base_amount.checked_mul(tier) {
            if tiered != 0 {
                if let Some(full) = tiered.checked_mul(dynamic) {
                    if full != 0 {
                        scaled = Some(full / BASIS_POINTS / BASIS_POINTS);
                    }
                }
            }
        }
        match scaled {
            Some(quote) => Ok(quote),
            None => if self.curve_state == CurveState::PriceDiscovery {
                Ok(base_amount)
            } else {
                Err(HypeBondError::MathOverflow)
            },
        }
    }

    /// Applies the protections of a buy of `amount` tokens to `base_amount`.
    pub fn apply_protections(&self, base_amount: u64, amount: u64) -> (result: Result<u64, HypeBondError>)
        ensures
            result == self.protected_amount(base_amount, amount, true),
    {
        self.apply_trade_protections(base_amount, amount, true)
    }

    /// Quotes what a purchase of `amount` tokens costs at `current_time`.
    pub fn calculate_buy_price(&self, amount: u64, current_time: i64) -> (result: Result<u64, HypeBondError>)
        ensures
            result == self.buy_quote(amount, current_time),
    {
        match self.curve_state {
            CurveState::PriceDiscovery => {
                let price = match self.get_discovery_price(current_time) {
                    Ok(price) => price,
                    Err(e) => {
                        return Err(e);
                    },
                };
                proof {
                    lemma_product_fits_u128(amount, price);
                }
                let cost: u128 = (amount as u128) * (price as u128) / (PRICE_SCALE as u128);
                if cost > u64::MAX as u128 {
                    return Err(HypeBondError::MathOverflow);
                }
                self.apply_trade_protections(cost as u64, amount, true)
            },
            CurveState::BondingCurve => match self.get_base_price(amount, true) {
                Ok(base) => self.apply_trade_protections(base, amount, true),
                Err(e) => Err(e),
            },
        }
    }

    /// Quotes what a sale of `amount` tokens returns at `current_time`.
    pub fn calculate_sell_price(&self, amount: u64, current_time: i64) -> (result: Result<u64, HypeBondError>)
        ensures
            result == self.sell_quote(amount, current_time),
    {
        match self.curve_state {
            CurveState::PriceDiscovery => {
                let price = match self.get_discovery_price(current_time) {
                    Ok(price) => price,
                    Err(e) => {
                        return Err(e);
                    },
                };
                proof {
                    lemma_product_fits_u128(amount, price);
                }
                let value: u128 = (amount as u128) * (price as u128);
                let discounted: u128 = (value / 100) * 95 + (value % 100) * 95 / 100;
                assert(discounted == amount * price * 95 / 100);
                let proceeds: u128 = discounted / (PRICE_SCALE as u128);
                if proceeds > u64::MAX as u128 {
                    return Err(HypeBondError::MathOverflow);
                }
                Ok(proceeds as u64)
            },
            CurveState::BondingCurve => match self.get_base_price(amount, false) {
                Ok(base) => self.apply_trade_protections(base, amount, false),
                Err(e) => Err(e),
            },
        }
    }
}

} // verus!
