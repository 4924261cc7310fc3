//! Selling tokens to a curve.

use vstd::prelude::*;
use crate::contexts::global::Global;
use crate::curve::BondingCurve;
use crate::errors::HypeBondError;
use crate::instructions::fee::{fee_on, trading_fee};

verus! {

/// The lamports that a sale moves.
#[derive(Clone, Copy, Debug, PartialEq, Eq, Structural)]
pub struct SellReceipt {
    /// Price of the tokens, which leaves the curve.
    pub sol_output: u64,
    /// Fee on the price, which goes to the fee recipient.
    pub fee_amount: u64,
    /// What the seller receives: the price less the fee.
    pub user_sol_amount: u64,
}

/// The outcome of a sale of `amount` tokens at `now` by a seller who accepts
/// no less than `min_sol_output` for them: the curve after the sale and the
/// lamports to move, or why the sale is refused.
///
/// The curve is first brought to its current phase. A complete curve refuses
/// with `BondingCurveComplete`, an amount outside the curve's trade bounds
/// with `InvalidTradeSize`. The sale is then quoted, and a quote below
/// `min_sol_output` is refused with `TooLittleSolReceived`. The fee is taken
/// out of the quote; the trade is then settled at the quote and added to the
/// volume window. Every arithmetic failure, a fee above the quote among them,
/// is `MathOverflow`.
pub open spec fn sell_result(curve: BondingCurve, global: Global, amount: u64, min_sol_output: u64, now: i64) -> Result<
    (BondingCurve, SellReceipt),
    HypeBondError,
> {
    match curve.advance_result(now) {
        Err(e) => Err(e),
        Ok(current) => if current.complete {
            Err(HypeBondError::BondingCurveComplete)
        } else if amount < current.min_trade_amount || amount > current.max_trade_amount {
            Err(HypeBondError::InvalidTradeSize)
        } else {
            match current.sell_quote(amount, now) {
                Err(e) => Err(e),
                Ok(sol_output) => if sol_output < min_sol_output {
                    Err(HypeBondError::TooLittleSolReceived)
                } else {
                    match fee_on(sol_output, global.fee_basis_points) {
                        Err(e) => Err(e),
                        Ok(fee_amount) => if fee_amount > sol_output {
                            Err(HypeBondError::MathOverflow)
                        } else {
                            match current.settle_result(amount, sol_output, false) {
                                Err(e) => Err(e),
                                Ok(settled) => Ok(
                                    (
                                        settled.with_volume(amount, now),
                                        SellReceipt {
                                            sol_output,
                                            fee_amount,
                                            user_sol_amount: (sol_output - fee_amount) as u64,
                                        },
                                    ),
                                ),
                            }
                        },
                    }
                },
            }
        },
    }
}

/// Sells `amount` tokens to `curve` at `current_time` for no less than
/// `min_sol_output` lamports before the fee. On success the curve holds the
/// trade and the receipt says which lamports to move; on refusal the curve
/// is as it was.
pub fn sell(curve: &mut BondingCurve, global: &Global, amount: u64, min_sol_output: u64, current_time: i64) -> (result:
    Result<SellReceipt, HypeBondError>)
    ensures
        match sell_result(*old(curve), *global, amount, min_sol_output, current_time) {
            Ok((next, receipt)) => result == Ok::<SellReceipt, HypeBondError>(receipt) && *final(curve) == next,
            Err(e) => result == Err::<SellReceipt, HypeBondError>(e) && *final(curve) == *old(curve),
        },
{
    let mut next = *curve;
    match next.check_and_update_state(current_time) {
        Ok(()) => {},
        Err(e) => {
            return Err(e);
        },
    }
    if next.complete {
        return Err(HypeBondError::BondingCurveComplete);
    }
    if amount < next.min_trade_amount || amount > next.max_trade_amount {
        return Err(HypeBondError::InvalidTradeSize);
    }
    let sol_output = match next.calculate_sell_price(amount, current_time) {
        Ok(quote) => quote,
        Err(e) => {
            return Err(e);
        },
    };
    if sol_output < min_sol_output {
        return Err(HypeBondError::TooLittleSolReceived);
    }
    let fee_amount = match trading_fee(sol_output, global.fee_basis_points) {
        Ok(fee) => fee,
        Err(e) => {
            return Err(e);
        },
    };
    let user_sol_amount = match sol_output.checked_sub(fee_amount) {
        Some(rest) => rest,
        None => {
            return Err(HypeBondError::MathOverflow);
        },
    };
    match next.update_reserves(amount, sol_output, false) {
        Ok(()) => {},
        Err(e) => {
            return Err(e);
        },
    }
    next.update_volume(amount, current_time);
    *curve = next;
    Ok(SellReceipt { sol_output, fee_amount, user_sol_amount })
}

} // verus!
