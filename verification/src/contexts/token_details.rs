//! The token of a project.

use vstd::prelude::*;
use crate::contexts::address::Address;

verus! {

/// The token of a project: its supply and how much of it is unlocked.
#[derive(Clone, Copy, Debug, PartialEq, Eq)]
pub struct TokenDetails {
    /// The token's mint.
    pub mint: Address,
    /// The project the token belongs to.
    pub project: Address,
    /// Share of each milestone's tokens that goes to the project, in percent.
    pub project_percentage: u8,
    /// Total supply of the token.
    pub total_supply: u64,
    /// Tokens unlocked by completed milestones.
    pub tokens_unlocked: u64,
}

} // verus!
