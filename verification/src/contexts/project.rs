//! A project and its progress through its milestones.

use vstd::prelude::*;
use crate::contexts::address::Address;
use crate::contexts::team_member::TeamAllocation;

verus! {

/// A project and its progress through its milestones.
#[derive(Clone, Debug, PartialEq, Eq)]
pub struct Project {
    /// Who may create and complete the project's milestones.
    pub authority: Address,
    /// Name of the project.
    pub name: String,
    /// Ticker of the project's token.
    pub ticker: String,
    /// Description of the project.
    pub description: String,
    /// Number of milestones of the project.
    pub total_milestones: u8,
    /// Number of milestones completed so far.
    pub completed_milestones: u8,
    /// Share of the supply unlocked by each milestone, in basis points.
    pub unlock_per_milestone: u64,
    /// The team's share.
    pub team_allocation: TeamAllocation,
}

} // verus!
