//! Proposal lifecycle metadata.
//!
//! On-chain: metadata for a proposal's lifecycle stage. Advancing the stage
//! is driven by an off-chain service.

use vstd::prelude::*;

use crate::error::FsmError;

verus! {

/// Proposal lifecycle stage.
#[derive(Clone, Copy, Debug, PartialEq, Eq, Structural)]
pub enum ProposalLifecycleStage {
    Draft,
    Review,
    Voting,
    Execution,
    Completed,
}

/// Proposal lifecycle metadata (on-chain).
#[derive(Debug, Clone, PartialEq, Eq)]
pub struct ProposalLifecycleMetadata {
    pub lifecycle_id: u64,
    pub proposal_id: u64,
    pub current_stage: ProposalLifecycleStage,
    pub created_at: i64,
    pub updated_at: i64,
}

/// Initialise lifecycle metadata in place; the lifecycle id must be
/// non-zero, and the stage always starts out `Draft`.
pub fn initialize_lifecycle(
    lifecycle: &mut ProposalLifecycleMetadata,
    lifecycle_id: u64,
    proposal_id: u64,
    current_time: i64,
) -> (r: Result<(), FsmError>)
    ensures
        lifecycle_id != 0 ==> (r is Ok && *final(lifecycle) == (ProposalLifecycleMetadata {
            lifecycle_id,
            proposal_id,
            current_stage: ProposalLifecycleStage::Draft,
            created_at: current_time,
            updated_at: current_time,
        })),
        lifecycle_id == 0 ==> (r == Err::<(), FsmError>(FsmError::InvalidInput) && *final(lifecycle) == *old(lifecycle)),
{
    if lifecycle_id == 0 {
        return Err(FsmError::InvalidInput);
    }
    lifecycle.lifecycle_id = lifecycle_id;
    lifecycle.proposal_id = proposal_id;
    lifecycle.current_stage = ProposalLifecycleStage::Draft;
    lifecycle.created_at = current_time;
    lifecycle.updated_at = current_time;
    Ok(())
}

/// Placeholder for the off-chain lifecycle advancer, which reports no
/// advance here.
pub fn advance_lifecycle(_proposal_id: u64) -> (r: bool)
    ensures
        r == false,
{
    false
}

} // verus!
