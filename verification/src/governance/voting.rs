//! Governance voting metadata.
//!
//! On-chain: metadata for a governance vote. Casting and tallying happen
//! in an off-chain service.

use vstd::prelude::*;

use crate::error::FsmError;

verus! {

/// Voting type.
#[derive(Clone, Copy, Debug, PartialEq, Eq, Structural)]
pub enum GovernanceVotingType {
    SimpleMajority,
    SuperMajority,
    Unanimous,
    Custom,
}

/// Voting status.
#[derive(Clone, Copy, Debug, PartialEq, Eq, Structural)]
pub enum GovernanceVotingStatus {
    Open,
    Closed,
    Cancelled,
}

/// Governance voting metadata (on-chain).
#[derive(Debug, Clone, PartialEq, Eq)]
pub struct GovernanceVotingMetadata {
    pub voting_id: u64,
    pub proposal_id: u64,
    pub voting_type: GovernanceVotingType,
    pub status: GovernanceVotingStatus,
    pub created_at: i64,
    pub voting_data_hash: [u8; 32],
}

/// Initialise voting metadata in place; the voting id must be non-zero,
/// and the vote always starts out `Open`.
pub fn initialize_governance_voting(
    voting: &mut GovernanceVotingMetadata,
    voting_id: u64,
    proposal_id: u64,
    voting_type: GovernanceVotingType,
    voting_data_hash: [u8; 32],
    current_time: i64,
) -> (r: Result<(), FsmError>)
    ensures
        voting_id != 0 ==> (r is Ok && *final(voting) == (GovernanceVotingMetadata {
            voting_id,
            proposal_id,
            voting_type,
            status: GovernanceVotingStatus::Open,
            created_at: current_time,
            voting_data_hash,
        })),
        voting_id == 0 ==> (r == Err::<(), FsmError>(FsmError::InvalidInput) && *final(voting)
            == *old(voting)),
{
    if voting_id == 0 {
        return Err(FsmError::InvalidInput);
    }
    voting.voting_id = voting_id;
    voting.proposal_id = proposal_id;
    voting.voting_type = voting_type;
    voting.status = GovernanceVotingStatus::Open;
    voting.created_at = current_time;
    voting.voting_data_hash = voting_data_hash;
    Ok(())
}

/// Placeholder for the off-chain vote tally, which returns no data here.
pub fn tally_votes(_voting_id: u64) -> (r: Vec<u8>)
    ensures
        r@ == Seq::<u8>::empty(),
{
    Vec::new()
}

} // verus!
