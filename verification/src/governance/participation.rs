//! Governance participation metadata.
//!
//! On-chain: metadata describing participation tracking for one member.
//! The tracking itself happens in an off-chain service.

use vstd::prelude::*;

use crate::error::FsmError;

verus! {

/// Participation type.
#[derive(Clone, Copy, Debug, PartialEq, Eq, Structural)]
pub enum GovernanceParticipationType {
    Voting,
    Proposal,
    Discussion,
    Custom,
}

/// Participation status.
#[derive(Clone, Copy, Debug, PartialEq, Eq, Structural)]
pub enum GovernanceParticipationStatus {
    Active,
    Paused,
    Disabled,
}

/// Governance participation metadata (on-chain).
#[derive(Debug, Clone, PartialEq, Eq)]
pub struct GovernanceParticipationMetadata {
    pub participation_id: u64,
    pub member_id: u64,
    pub participation_type: GovernanceParticipationType,
    pub status: GovernanceParticipationStatus,
    pub created_at: i64,
    pub participation_config_hash: [u8; 32],
}

/// Initialise participation metadata in place; the participation id must
/// be non-zero, and the status always starts out `Active`.
pub fn initialize_governance_participation(
    participation: &mut GovernanceParticipationMetadata,
    participation_id: u64,
    member_id: u64,
    participation_type: GovernanceParticipationType,
    participation_config_hash: [u8; 32],
    current_time: i64,
) -> (r: Result<(), FsmError>)
    ensures
        participation_id != 0 ==> (r is Ok && *final(participation) == (
        GovernanceParticipationMetadata {
            participation_id,
            member_id,
            participation_type,
            status: GovernanceParticipationStatus::Active,
            created_at: current_time,
            participation_config_hash,
        })),
        participation_id == 0 ==> (r == Err::<(), FsmError>(FsmError::InvalidInput) && *final(participation) == *old(participation)),
{
    if participation_id == 0 {
        return Err(FsmError::InvalidInput);
    }
    participation.participation_id = participation_id;
    participation.member_id = member_id;
    participation.participation_type = participation_type;
    participation.status = GovernanceParticipationStatus::Active;
    participation.created_at = current_time;
    participation.participation_config_hash = participation_config_hash;
    Ok(())
}

/// Placeholder for the off-chain participation tracker, which returns no
/// data here.
pub fn track_participation(_participation_id: u64) -> (r: Vec<u8>)
    ensures
        r@ == Seq::<u8>::empty(),
{
    Vec::new()
}

} // verus!
