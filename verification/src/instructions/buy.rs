//! Buying tokens from a curve.

use vstd::prelude::*;
use crate::contexts::global::Global;
use crate::curve::BondingCurve;
use crate::errors::HypeBondError;
use crate::instructions::fee::{fee_on, trading_fee};

verus! {

/// The lamports that a purchase moves.
#[derive(Clone, Copy, Debug, PartialEq, Eq, Structural)]
pub struct BuyReceipt {
    /// Price of the tokens, which goes to the curve.
    pub sol_required: u64,
    /// Fee on the price, which goes to the fee recipient.
    pub fee_amount: u64,
    /// What the buyer pays: price and fee together.
    pub transfer_amount: u64,
}

/// The outcome of a purchase of `amount` tokens at `now` by a buyer who pays
/// at most `max_sol_cost` for them: the curve after the purchase and the
/// lamports to move, or why the purchase is refused.
///
/// The curve is first brought to its current phase. A complete curve refuses
/// with `BondingCurveComplete`, an amount outside the curve's trade bounds
/// with `InvalidTradeSize`. The purchase is then quoted, and a quote above
/// `max_sol_cost` is refused with `TooMuchSolRequired`. The fee is taken on
/// the quote; the trade is then settled at the quote and added to the volume
/// window. Every arithmetic failure is `MathOverflow`.
pub open spec fn buy_result(curve: BondingCurve, global: Global, amount: u64, max_sol_cost: u64, now: i64) -> Result<
    (BondingCurve, BuyReceipt),
    HypeBondError,
> {
    match curve.advance_result(now) {
        Err(e) => Err(e),
        Ok(current) => if current.complete {
            Err(HypeBondError::BondingCurveComplete)
        } else if amount < current.min_trade_amount || amount > current.max_trade_amount {
            Err(HypeBondError::InvalidTradeSize)
        } else {
            match current.buy_quote(amount, now) {
                Err(e) => Err(e),
                Ok(sol_required) => if sol_required > max_sol_cost {
                    Err(HypeBondError::TooMuchSolRequired)
                } else {
                    match fee_on(sol_required, global.fee_basis_points) {
                        Err(e) => Err(e),
                        Ok(fee_amount) => if sol_required + fee_amount > u64::MAX {
                            Err(HypeBondError::MathOverflow)
                        } else {
                            match current.settle_result(amount, sol_required, true) {
                                Err(e) => Err(e),
                                Ok(settled) => Ok(
                                    (
                                        settled.with_volume(amount, now),
                                        BuyReceipt {
                                            sol_required,
                                            fee_amount,
                                            transfer_amount: (sol_required + fee_amount) as u64,
                                        },
                                    ),
                                ),
                            }
                        },
                    }
                },
            }
        },
    }
}

/// Buys `amount` tokens from `curve` at `current_time` for at most
/// `max_sol_cost` lamports before the fee. On success the curve holds the
/// trade and the receipt says which lamports to move; on refusal the curve
/// is as it was.
pub fn buy(curve: &mut BondingCurve, global: &Global, amount: u64, max_sol_cost: u64, current_time: i64) -> (result:
    Result<BuyReceipt, HypeBondError>)
    ensures
        match buy_result(*old(curve), *global, amount, max_sol_cost, current_time) {
            Ok((next, receipt)) => result == Ok::<BuyReceipt, HypeBondError>(receipt) && *final(curve) == next,
            Err(e) => result == Err::<BuyReceipt, HypeBondError>(e) && *final(curve) == *old(curve),
        },
{
    let mut next = *curve;
    match next.check_and_update_state(current_time) {
        Ok(()) => {},
        Err(e) => {
            return Err(e);
        },
    }
    if next.complete {
        return Err(HypeBondError::BondingCurveComplete);
    }
    if amount < next.min_trade_amount || amount > next.max_trade_amount {
        return Err(HypeBondError::InvalidTradeSize);
    }
    let sol_required = match next.calculate_buy_price(amount, current_time) {
        Ok(quote) => quote,
        Err(e) => {
            return Err(e);
        },
    };
    if sol_required > max_sol_cost {
        return Err(HypeBondError::TooMuchSolRequired);
    }
    let fee_amount = match trading_fee(sol_required, global.fee_basis_points) {
        Ok(fee) => fee,
        Err(e) => {
            return Err(e);
        },
    };
    let transfer_amount = match sol_required.checked_add(fee_amount) {
        Some(total) => total,
        None => {
            return Err(HypeBondError::MathOverflow);
        },
    };
    match next.update_reserves(amount, sol_required, true) {
        Ok(()) => {},
        Err(e) => {
            return Err(e);
        },
    }
    next.update_volume(amount, current_time);
    *curve = next;
    Ok(BuyReceipt { sol_required, fee_amount, transfer_amount })
}

} // verus!
