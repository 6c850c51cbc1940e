//! Proposal account structures.

use vstd::prelude::*;

use crate::proposal::treasury::TreasuryOperationData;

verus! {

/// Proposal status.
#[derive(Clone, Debug, PartialEq, Eq, Structural)]
pub enum ProposalStatus {
    Draft,
    Active,
    Passed,
    Rejected,
    Executed,
    Cancelled,
    Archived,
    Tied,
}

/// Proposal account structure, generic over the key type that identifies
/// an author or a treasury.
#[derive(Debug, Clone, PartialEq, Eq)]
pub struct Proposal<P> {
    pub id: u64,
    pub title: String,
    pub description: String,
    pub proposal_type: String,
    pub author: P,
    pub created_at: i64,
    pub updated_at: Option<i64>,
    pub submitted_at: Option<i64>,
    pub cancelled_at: Option<i64>,
    pub executed_at: Option<i64>,
    pub archived_at: Option<i64>,
    pub voting_duration: i64,
    pub status: ProposalStatus,
    pub yes_votes: u64,
    pub no_votes: u64,
    pub total_votes: u64,
    pub last_tallied_at: Option<i64>,
    pub cancellation_reason: Option<String>,
    /// Execution data (JSON-encoded data for proposal execution).
    pub execution_data: Option<String>,
    /// Expiration timestamp; the proposal is auto-archived after this time.
    /// `None` means the proposal never expires.
    pub expires_at: Option<i64>,
    /// ID of the idea this proposal was created from, where there was one.
    pub idea_id: Option<u64>,
    /// Treasury operation data, for treasury proposals only.
    pub treasury_operation: Option<TreasuryOperationData<P>>,
}

} // verus!
