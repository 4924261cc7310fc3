//! Changing the program-wide configuration.

use vstd::prelude::*;
use crate::constants::{
    DEFAULT_BASE_SLIPPAGE,
    DEFAULT_MIN_TRADE_AMOUNT,
    DEFAULT_VOLUME_MULTIPLIER,
    MAX_TRADE_SUPPLY_DIVISOR,
};
use crate::contexts::address::Address;
use crate::contexts::global::Global;
use crate::curve::BondingCurve;
use crate::errors::HypeBondError;

verus! {

/// The configuration after its authority set the fee recipient, the initial
/// reserves, the supply and the fee: the trade bounds and the multipliers of
/// new curves follow from the supply and the defaults.
pub open spec fn with_params(
    global: Global,
    fee_recipient: Address,
    initial_virtual_token_reserves: u64,
    initial_virtual_sol_reserves: u64,
    initial_real_token_reserves: u64,
    token_total_supply: u64,
    fee_basis_points: u64,
) -> Global {
    Global {
        fee_recipient,
        initial_virtual_token_reserves,
        initial_virtual_sol_reserves,
        initial_real_token_reserves,
        token_total_supply,
        fee_basis_points,
        min_trade_amount: DEFAULT_MIN_TRADE_AMOUNT,
        max_trade_amount: token_total_supply / MAX_TRADE_SUPPLY_DIVISOR,
        base_slippage: DEFAULT_BASE_SLIPPAGE,
        volume_multiplier: DEFAULT_VOLUME_MULTIPLIER,
        ..global
    }
}

/// Why `user` may not set the parameters of `global`, if so: a
/// configuration that is not set up refuses with `NotInitialized`, a user
/// other than its authority is refused with `NotAuthorized`.
pub open spec fn params_refusal(global: Global, user: Address) -> Option<HypeBondError> {
    if !global.initialized {
        Some(HypeBondError::NotInitialized)
    } else if user@ != global.authority@ {
        Some(HypeBondError::NotAuthorized)
    } else {
        None
    }
}

/// A curve, where there is one, at the start of a discovery phase that
/// begins at `now` with the given window, price band and supply.
pub open spec fn with_discovery_from(
    bonding_curve: Option<BondingCurve>,
    now: i64,
    discovery_duration: i64,
    discovery_start_price: u64,
    discovery_end_price: u64,
    token_total_supply: u64,
) -> Option<BondingCurve> {
    match bonding_curve {
        Some(curve) => Some(
            curve.with_discovery(
                now,
                discovery_duration,
                discovery_start_price,
                discovery_end_price,
                token_total_supply,
            ),
        ),
        None => None,
    }
}

/// Sets the parameters of the configuration on behalf of `user` and, where
/// a curve is supplied, starts its discovery phase at `current_time` with the
/// new supply. A refusal changes neither the configuration nor the curve.
/// Without a curve `current_time` and the discovery parameters are not used.
pub fn set_params(
    global: &mut Global,
    bonding_curve: &mut Option<BondingCurve>,
    user: &Address,
    fee_recipient: Address,
    initial_virtual_token_reserves: u64,
    initial_virtual_sol_reserves: u64,
    initial_real_token_reserves: u64,
    token_total_supply: u64,
    fee_basis_points: u64,
    discovery_duration: i64,
    discovery_start_price: u64,
    discovery_end_price: u64,
    current_time: i64,
) -> (result: Result<(), HypeBondError>)
    ensures
        match params_refusal(*old(global), *user) {
            Some(e) => {
                &&& result == Err::<(), HypeBondError>(e)
                &&& *final(global) == *old(global)
                &&& *final(bonding_curve) == *old(bonding_curve)
            },
            None => {
                &&& result is Ok
                &&& *final(global) == with_params(
                    *old(global),
                    fee_recipient,
                    initial_virtual_token_reserves,
                    initial_virtual_sol_reserves,
                    initial_real_token_reserves,
                    token_total_supply,
                    fee_basis_points,
                )
                &&& *final(bonding_curve) == with_discovery_from(
                    *old(bonding_curve),
                    current_time,
                    discovery_duration,
                    discovery_start_price,
                    discovery_end_price,
                    token_total_supply,
                )
            },
        },
{
    if !global.initialized {
        return Err(HypeBondError::NotInitialized);
    }
    if *user != global.authority {
        return Err(HypeBondError::NotAuthorized);
    }
    global.fee_recipient = fee_recipient;
    global.initial_virtual_token_reserves = initial_virtual_token_reserves;
    global.initial_virtual_sol_reserves = initial_virtual_sol_reserves;
    global.initial_real_token_reserves = initial_real_token_reserves;
    global.token_total_supply = token_total_supply;
    global.fee_basis_points = fee_basis_points;
    global.min_trade_amount = DEFAULT_MIN_TRADE_AMOUNT;
    global.max_trade_amount = token_total_supply / MAX_TRADE_SUPPLY_DIVISOR;
    global.base_slippage = DEFAULT_BASE_SLIPPAGE;
    global.volume_multiplier = DEFAULT_VOLUME_MULTIPLIER;

    match *bonding_curve {
        Some(curve) => {
            let mut started = curve;
            let _ = started.initialize_discovery(
                current_time,
                discovery_duration,
                discovery_start_price,
                discovery_end_price,
                token_total_supply,
            );
            *bonding_curve = Some(started);
        },
        None => {},
    }
    Ok(())
}

} // verus!
