//! The team's share of a project's tokens.

use vstd::prelude::*;
use crate::contexts::address::Address;

verus! {

/// Where the team's tokens go and how large the team's share is.
#[derive(Clone, Copy, Debug, PartialEq, Eq)]
pub struct TeamAllocation {
    /// Wallet that receives the team's tokens.
    pub wallet: Address,
    /// Share of the project's tokens that goes to the team, in percent.
    pub percentage: u8,
}

impl Default for TeamAllocation {
    fn default() -> (allocation: Self)
        ensures
            allocation.wallet@ == Seq::new(32, |i: int| 0u8),
            allocation.percentage == 0,
    {
        TeamAllocation { wallet: Address::default(), percentage: 0 }
    }
}

} // verus!
