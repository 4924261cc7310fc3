//! Creating a milestone and working out the tokens it unlocks.

use vstd::prelude::*;
use crate::constants::BASIS_POINTS;
use crate::contexts::address::Address;
use crate::contexts::milestone::Milestone;
use crate::contexts::project::Project;
use crate::contexts::token_details::TokenDetails;
use crate::curve::fits_u64;
use crate::errors::HypeBondError;

verus! {

/// The tokens that one milestone unlocks.
#[derive(Clone, Copy, Debug, PartialEq, Eq, Structural)]
pub struct MilestoneTokens {
    /// All tokens that the milestone unlocks.
    pub total_tokens: u64,
    /// The part that goes to the team.
    pub team_tokens: u64,
    /// The part that goes to the treasury.
    pub treasury_tokens: u64,
}

/// Splits the tokens of one milestone. The milestone unlocks
/// `unlock_per_milestone` basis points of `total_supply`; of these,
/// `project_percentage` percent go to the project and the rest to the
/// market; of the project's, `team_percentage` percent go to the team and the
/// rest to the treasury. Every quotient is rounded down. `MathOverflow`
/// where the supply times the basis points does not fit in 64 bits or a
/// percentage takes more than the whole.
pub open spec fn milestone_split(
    total_supply: u64,
    unlock_per_milestone: u64,
    project_percentage: u8,
    team_percentage: u8,
) -> Result<MilestoneTokens, HypeBondError> {
    let total_tokens = total_supply * unlock_per_milestone / (BASIS_POINTS as int);
    let project_tokens = total_tokens * project_percentage / 100;
    let team_tokens = project_tokens * team_percentage / 100;
    if fits_u64(total_supply * unlock_per_milestone) && project_tokens <= total_tokens && team_tokens
        <= project_tokens {
        Ok(
            MilestoneTokens {
                total_tokens: total_tokens as u64,
                team_tokens: team_tokens as u64,
                treasury_tokens: (project_tokens - team_tokens) as u64,
            },
        )
    } else {
        Err(HypeBondError::MathOverflow)
    }
}

/// Computes the split of one milestone's tokens. The team's and the
/// treasury's parts together never exceed the whole.
pub fn split_milestone_tokens(
    total_supply: u64,
    unlock_per_milestone: u64,
    project_percentage: u8,
    team_percentage: u8,
) -> (result: Result<MilestoneTokens, HypeBondError>)
    ensures
        result == milestone_split(total_supply, unlock_per_milestone, project_percentage, team_percentage),
        result matches Ok(tokens) ==> tokens.team_tokens + tokens.treasury_tokens <= tokens.total_tokens,
{
    let total_tokens = match total_supply.checked_mul(unlock_per_milestone) {
        Some(unlocked) => unlocked / BASIS_POINTS,
        None => {
            return Err(HypeBondError::MathOverflow);
        },
    };
    assert(total_tokens * project_percentage <= total_tokens * 255) by (nonlinear_arith)
        requires
            0 <= total_tokens,
            project_percentage <= 255,
    ;
    let project_tokens = total_tokens * (project_percentage as u64) / 100;
    if project_tokens > total_tokens {
        return Err(HypeBondError::MathOverflow);
    }
    assert(project_tokens * team_percentage <= project_tokens * 255) by (nonlinear_arith)
        requires
            0 <= project_tokens,
            team_percentage <= 255,
    ;
    let team_tokens = project_tokens * (team_percentage as u64) / 100;
    match project_tokens.checked_sub(team_tokens) {
        Some(treasury_tokens) => Ok(MilestoneTokens { total_tokens, team_tokens, treasury_tokens }),
        None => Err(HypeBondError::MathOverflow),
    }
}

/// Fills in milestone number `milestone_id` of `project`, not yet
/// completed, with the tokens it unlocks. A number that is not below the
/// project's milestone count is refused with `InvalidMilestoneCount`; a
/// refusal changes nothing.
pub fn create_milestone(
    project: &Project,
    project_key: Address,
    token_details: &TokenDetails,
    milestone: &mut Milestone,
    milestone_id: u8,
    description: String,
    requirements: Vec<String>,
) -> (result: Result<(), HypeBondError>)
    ensures
        milestone_id >= project.total_milestones ==> result == Err::<(), HypeBondError>(
            HypeBondError::InvalidMilestoneCount,
        ),
        milestone_id < project.total_milestones ==> match milestone_split(
            token_details.total_supply,
            project.unlock_per_milestone,
            token_details.project_percentage,
            project.team_allocation.percentage,
        ) {
            Ok(tokens) => {
                &&& result is Ok
                &&& final(milestone).project == project_key
                &&& final(milestone).milestone_id == milestone_id
                &&& final(milestone).description@ == description@
                &&& final(milestone).requirements@ == requirements@
                &&& !final(milestone).completed
                &&& final(milestone).total_tokens == tokens.total_tokens
                &&& final(milestone).team_tokens == tokens.team_tokens
                &&& final(milestone).treasury_tokens == tokens.treasury_tokens
            },
            Err(e) => result == Err::<(), HypeBondError>(e),
        },
        result is Err ==> *final(milestone) == *old(milestone),
{
    if milestone_id >= project.total_milestones {
        return Err(HypeBondError::InvalidMilestoneCount);
    }
    let tokens = match split_milestone_tokens(
        token_details.total_supply,
        project.unlock_per_milestone,
        token_details.project_percentage,
        project.team_allocation.percentage,
    ) {
        Ok(tokens) => tokens,
        Err(e) => {
            return Err(e);
        },
    };
    milestone.project = project_key;
    milestone.milestone_id = milestone_id;
    milestone.description = description;
    milestone.requirements = requirements;
    milestone.completed = false;
    milestone.total_tokens = tokens.total_tokens;
    milestone.team_tokens = tokens.team_tokens;
    milestone.treasury_tokens = tokens.treasury_tokens;
    Ok(())
}

} // verus!
