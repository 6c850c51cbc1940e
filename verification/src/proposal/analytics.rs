//! Proposal analytics metadata.
//!
//! On-chain: metadata describing an analytics configuration for one
//! proposal. The analytics themselves are computed by an off-chain service.

use vstd::prelude::*;

use crate::error::FsmError;

verus! {

/// Analytics type.
#[derive(Clone, Copy, Debug, PartialEq, Eq, Structural)]
pub enum ProposalAnalyticsType {
    Support,
    Opposition,
    Engagement,
    Custom,
}

/// Analytics status.
#[derive(Clone, Copy, Debug, PartialEq, Eq, Structural)]
pub enum ProposalAnalyticsStatus {
    Active,
    Paused,
    Disabled,
}

/// Proposal analytics metadata (on-chain).
#[derive(Debug, Clone, PartialEq, Eq)]
pub struct ProposalAnalyticsMetadata {
    pub analytics_id: u64,
    pub proposal_id: u64,
    pub analytics_type: ProposalAnalyticsType,
    pub status: ProposalAnalyticsStatus,
    pub created_at: i64,
    pub analytics_config_hash: [u8; 32],
}

/// Initialise analytics metadata in place; the analytics id must be
/// non-zero, and the status always starts out `Active`.
pub fn initialize_proposal_analytics(
    analytics: &mut ProposalAnalyticsMetadata,
    analytics_id: u64,
    proposal_id: u64,
    analytics_type: ProposalAnalyticsType,
    analytics_config_hash: [u8; 32],
    current_time: i64,
) -> (r: Result<(), FsmError>)
    ensures
        analytics_id != 0 ==> (r is Ok && *final(analytics) == (ProposalAnalyticsMetadata {
            analytics_id,
            proposal_id,
            analytics_type,
            status: ProposalAnalyticsStatus::Active,
            created_at: current_time,
            analytics_config_hash,
        })),
        analytics_id == 0 ==> (r == Err::<(), FsmError>(FsmError::InvalidInput) && *final(analytics) == *old(analytics)),
{
    if !(analytics_id > 0) {
        return Err(FsmError::InvalidInput);
    }
    analytics.analytics_id = analytics_id;
    analytics.proposal_id = proposal_id;
    analytics.analytics_type = analytics_type;
    analytics.status = ProposalAnalyticsStatus::Active;
    analytics.created_at = current_time;
    analytics.analytics_config_hash = analytics_config_hash;
    Ok(())
}

/// Placeholder for the off-chain analytics generator, which returns no
/// data here.
pub fn generate_proposal_analytics(_analytics_id: u64) -> (r: Vec<u8>)
    ensures
        r@ == Seq::<u8>::empty(),
{
    Vec::new()
}

} // verus!
