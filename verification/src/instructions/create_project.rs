//! Creating a project and its token.

use vstd::prelude::*;
use crate::constants::{BASIS_POINTS, MIN_MILESTONES, PROJECT_TOKEN_SUPPLY};
use crate::contexts::address::Address;
use crate::contexts::project::Project;
use crate::contexts::team_member::TeamAllocation;
use crate::contexts::token_details::TokenDetails;
use crate::errors::HypeBondError;

verus! {

/// Why a project with these numbers is refused, if it is: the team's and
/// the treasury's percentages must add up to less than 100, and the project
/// must have more than `MIN_MILESTONES` milestones.
pub open spec fn project_refusal(total_milestones: u8, team_percentage: u8, treasury_percentage: u8) -> Option<
    HypeBondError,
> {
    if team_percentage + treasury_percentage >= 100 {
        Some(HypeBondError::InvalidPercentages)
    } else if total_milestones <= MIN_MILESTONES {
        Some(HypeBondError::InvalidMilestoneCount)
    } else {
        None
    }
}

/// Fills in a new project and the details of its token. The project starts
/// with no milestone completed and unlocks an equal share of the supply per
/// milestone; the token has the fixed supply, none of it unlocked. The caller
/// then mints `total_supply` tokens. A refusal changes nothing.
pub fn create_project(
    project: &mut Project,
    token_details: &mut TokenDetails,
    authority: Address,
    project_key: Address,
    mint_key: Address,
    name: String,
    ticker: String,
    description: String,
    total_milestones: u8,
    team_percentage: u8,
    treasury_percentage: u8,
    team_allocation: TeamAllocation,
) -> (result: Result<(), HypeBondError>)
    ensures
        match project_refusal(total_milestones, team_percentage, treasury_percentage) {
            Some(e) => {
                &&& result == Err::<(), HypeBondError>(e)
                &&& *final(project) == *old(project)
                &&& *final(token_details) == *old(token_details)
            },
            None => {
                &&& result is Ok
                &&& final(project).authority == authority
                &&& final(project).name@ == name@
                &&& final(project).ticker@ == ticker@
                &&& final(project).description@ == description@
                &&& final(project).total_milestones == total_milestones
                &&& final(project).completed_milestones == 0
                &&& final(project).unlock_per_milestone == BASIS_POINTS / (total_milestones as u64)
                &&& final(project).team_allocation == team_allocation
                &&& *final(token_details) == (TokenDetails {
                    mint: mint_key,
                    project: project_key,
                    project_percentage: (team_percentage + treasury_percentage) as u8,
                    total_supply: PROJECT_TOKEN_SUPPLY,
                    tokens_unlocked: 0,
                })
            },
        },
{
    let project_percentage = match team_percentage.checked_add(treasury_percentage) {
        Some(sum) => sum,
        None => {
            return Err(HypeBondError::InvalidPercentages);
        },
    };
    if project_percentage >= 100 {
        return Err(HypeBondError::InvalidPercentages);
    }
    if total_milestones <= MIN_MILESTONES {
        return Err(HypeBondError::InvalidMilestoneCount);
    }
    project.name = name;
    project.ticker = ticker;
    project.description = description;
    project.authority = authority;
    project.total_milestones = total_milestones;
    project.completed_milestones = 0;
    project.team_allocation = team_allocation;
    project.unlock_per_milestone = BASIS_POINTS / (total_milestones as u64);

    token_details.mint = mint_key;
    token_details.project = project_key;
    token_details.project_percentage = project_percentage;
    token_details.total_supply = PROJECT_TOKEN_SUPPLY;
    token_details.tokens_unlocked = 0;
    Ok(())
}

} // verus!
