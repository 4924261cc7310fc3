//! The trading fee.

use vstd::prelude::*;
use crate::arith::lemma_share_bounded;
use crate::constants::BASIS_POINTS;
use crate::errors::HypeBondError;

verus! {

/// The fee on `amount` lamports at `fee_basis_points`, rounded down;
/// `MathOverflow` where the product of the two does not fit in 64 bits.
pub open spec fn fee_on(amount: u64, fee_basis_points: u64) -> Result<u64, HypeBondError> {
    if amount * fee_basis_points > u64::MAX {
        Err(HypeBondError::MathOverflow)
    } else {
        Ok((amount * fee_basis_points / (BASIS_POINTS as int)) as u64)
    }
}

/// Computes the fee on `amount` lamports at `fee_basis_points`. At no more
/// than 100% the fee never exceeds the amount.
pub fn trading_fee(amount: u64, fee_basis_points: u64) -> (result: Result<u64, HypeBondError>)
    ensures
        result == fee_on(amount, fee_basis_points),
        fee_basis_points <= BASIS_POINTS ==> (result matches Ok(fee) ==> fee <= amount),
{
    proof {
        if fee_basis_points <= BASIS_POINTS {
            lemma_share_bounded(amount as int, fee_basis_points as int, BASIS_POINTS as int);
        }
    }
    match amount.checked_mul(fee_basis_points) {
        Some(product) => Ok(product / BASIS_POINTS),
        None => Err(HypeBondError::MathOverflow),
    }
}

} // verus!
