//! Completing a milestone and releasing its tokens.

use vstd::prelude::*;
use crate::contexts::address::Address;
use crate::contexts::milestone::Milestone;
use crate::contexts::project::Project;
use crate::contexts::token_details::TokenDetails;
use crate::errors::HypeBondError;

verus! {

/// The tokens to hand out when a milestone is completed.
#[derive(Clone, Copy, Debug, PartialEq, Eq, Structural)]
pub struct MilestoneRelease {
    /// Tokens to send to the team, if any.
    pub team_transfer: Option<u64>,
    /// Tokens to send to the treasury, if any.
    pub treasury_transfer: Option<u64>,
}

/// A transfer of `tokens`, or none where there is nothing to send.
pub open spec fn transfer_of(tokens: u64) -> Option<u64> {
    if tokens > 0 {
        Some(tokens)
    } else {
        None
    }
}

/// Why the completion of `milestone` as number `milestone_id` of the
/// project at `project_key` is refused, if it is: a number other than the
/// milestone's own, a milestone of another project, a milestone completed
/// before, or a count that would leave its range.
pub open spec fn completion_refusal(
    project: Project,
    milestone: Milestone,
    token_details: TokenDetails,
    project_key: Address,
    milestone_id: u8,
) -> Option<HypeBondError> {
    if milestone_id != milestone.milestone_id {
        Some(HypeBondError::InvalidMilestoneCount)
    } else if milestone.project@ != project_key@ {
        Some(HypeBondError::NotAuthorized)
    } else if milestone.completed {
        Some(HypeBondError::AlreadyInitialized)
    } else if project.completed_milestones + 1 > u8::MAX || token_details.tokens_unlocked
        + milestone.total_tokens > u64::MAX {
        Some(HypeBondError::MathOverflow)
    } else {
        None
    }
}

/// Completes a milestone: marks it, counts it in the project and unlocks
/// its tokens. The result says which tokens to send to the team and to the
/// treasury. A refusal changes nothing.
pub fn complete_milestone(
    project: &mut Project,
    milestone: &mut Milestone,
    token_details: &mut TokenDetails,
    project_key: Address,
    milestone_id: u8,
) -> (result: Result<MilestoneRelease, HypeBondError>)
    ensures
        match completion_refusal(*old(project), *old(milestone), *old(token_details), project_key, milestone_id) {
            Some(e) => {
                &&& result == Err::<MilestoneRelease, HypeBondError>(e)
                &&& *final(project) == *old(project)
                &&& *final(milestone) == *old(milestone)
                &&& *final(token_details) == *old(token_details)
            },
            None => {
                &&& result == Ok::<MilestoneRelease, HypeBondError>(
                    MilestoneRelease {
                        team_transfer: transfer_of(old(milestone).team_tokens),
                        treasury_transfer: transfer_of(old(milestone).treasury_tokens),
                    },
                )
                &&& *final(milestone) == (Milestone { completed: true, ..*old(milestone) })
                &&& *final(project) == (Project {
                    completed_milestones: (old(project).completed_milestones + 1) as u8,
                    ..*old(project)
                })
                &&& *final(token_details) == (TokenDetails {
                    tokens_unlocked: (old(token_details).tokens_unlocked + old(milestone).total_tokens) as u64,
                    ..*old(token_details)
                })
            },
        },
{
    if milestone_id != milestone.milestone_id {
        return Err(HypeBondError::InvalidMilestoneCount);
    }
    if milestone.project != project_key {
        return Err(HypeBondError::NotAuthorized);
    }
    if milestone.completed {
        return Err(HypeBondError::AlreadyInitialized);
    }
    let completed_milestones = match project.completed_milestones.checked_add(1) {
        Some(count) => count,
        None => {
            return Err(HypeBondError::MathOverflow);
        },
    };
    let tokens_unlocked = match token_details.tokens_unlocked.checked_add(milestone.total_tokens) {
        Some(unlocked) => unlocked,
        None => {
            return Err(HypeBondError::MathOverflow);
        },
    };
    milestone.completed = true;
    project.completed_milestones = completed_milestones;
    token_details.tokens_unlocked = tokens_unlocked;
    let team_transfer = if milestone.team_tokens > 0 {
        Some(milestone.team_tokens)
    } else {
        None
    };
    let treasury_transfer = if milestone.treasury_tokens > 0 {
        Some(milestone.treasury_tokens)
    } else {
        None
    };
    Ok(MilestoneRelease { team_transfer, treasury_transfer })
}

} // verus!
