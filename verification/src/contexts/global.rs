//! Program-wide configuration.

use vstd::prelude::*;
use crate::contexts::address::Address;

verus! {

/// Program-wide configuration: who may change it, where fees go, and the
/// parameters handed to new curves.
#[derive(Clone, Copy, Debug, PartialEq, Eq)]
pub struct Global {
    /// Whether the configuration has been set up.
    pub initialized: bool,
    /// Who may change the configuration.
    pub authority: Address,
    /// Who receives trading fees.
    pub fee_recipient: Address,
    /// Virtual token reserve of a new curve.
    pub initial_virtual_token_reserves: u64,
    /// Virtual SOL reserve of a new curve.
    pub initial_virtual_sol_reserves: u64,
    /// Real token reserve of a new curve.
    pub initial_real_token_reserves: u64,
    /// Total supply of a new token.
    pub token_total_supply: u64,
    /// Trading fee in basis points.
    pub fee_basis_points: u64,
    /// Smallest admissible trade.
    pub min_trade_amount: u64,
    /// Largest admissible trade.
    pub max_trade_amount: u64,
    /// Constant part of the dynamic multiplier, basis points.
    pub base_slippage: u64,
    /// Part of the dynamic multiplier added per volume threshold, basis points.
    pub volume_multiplier: u64,
}

impl Default for Global {
    fn default() -> (global: Self)
        ensures
            !global.initialized,
            global.authority@ == Seq::new(32, |i: int| 0u8),
            global.fee_recipient@ == Seq::new(32, |i: int| 0u8),
            global.initial_virtual_token_reserves == 0,
            global.initial_virtual_sol_reserves == 0,
            global.initial_real_token_reserves == 0,
            global.token_total_supply == 0,
            global.fee_basis_points == 0,
            global.min_trade_amount == 0,
            global.max_trade_amount == 0,
            global.base_slippage == 0,
            global.volume_multiplier == 0,
    {
        Global {
            initialized: false,
            authority: Address::default(),
            fee_recipient: Address::default(),
            initial_virtual_token_reserves: 0,
            initial_virtual_sol_reserves: 0,
            initial_real_token_reserves: 0,
            token_total_supply: 0,
            fee_basis_points: 0,
            min_trade_amount: 0,
            max_trade_amount: 0,
            base_slippage: 0,
            volume_multiplier: 0,
        }
    }
}

} // verus!
