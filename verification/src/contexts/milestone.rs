//! One milestone of a project and the tokens it unlocks.

use vstd::prelude::*;
use crate::contexts::address::Address;

verus! {

/// One milestone of a project and the tokens it unlocks.
#[derive(Clone, Debug, PartialEq, Eq)]
pub struct Milestone {
    /// The project the milestone belongs to.
    pub project: Address,
    /// Number of the milestone within its project.
    pub milestone_id: u8,
    /// Description of the milestone.
    pub description: String,
    /// What has to be done to complete the milestone.
    pub requirements: Vec<String>,
    /// Whether the milestone has been completed.
    pub completed: bool,
    /// Tokens unlocked by the milestone.
    pub total_tokens: u64,
    /// Tokens that go to the team on completion.
    pub team_tokens: u64,
    /// Tokens that go to the treasury on completion.
    pub treasury_tokens: u64,
}

} // verus!
