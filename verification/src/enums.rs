//! Enum definitions for core program state.

use vstd::prelude::*;

pub use crate::grant::types::GrantStatus;

verus! {

/// Idea lifecycle status.
#[derive(Clone, Copy, Debug, Default, PartialEq, Eq, Structural)]
pub enum IdeaStatus {
    #[default]
    Draft,
    UnderReview,
    Approved,
    Rejected,
    InProgress,
    Paused,
    Completed,
    Executed,
    Commercialization,
    Archived,
    Resubmitted,
    Voting,
    Expired,
}

/// Member action enum.
#[derive(Clone, Copy, Debug, Default, PartialEq, Eq, Structural)]
pub enum MemberAction {
    #[default]
    Join,
    Leave,
    Suspend,
    Activate,
    Ban,
}

/// Delegation type enum.
#[derive(Clone, Copy, Debug, Default, PartialEq, Eq, Structural)]
pub enum DelegationType {
    #[default]
    Temporary,
    Permanent,
    Conditional,
}

/// Capability type enum.
#[derive(Clone, Copy, Debug, Default, PartialEq, Eq, Structural)]
pub enum CapabilityType {
    Withdraw,
    Deposit,
    Manage,
    #[default]
    Vote,
    Propose,
}

/// Contribution type enum.
#[derive(Clone, Copy, Debug, Default, PartialEq, Eq, Structural)]
pub enum ContributionType {
    Code,
    Design,
    Documentation,
    Testing,
    Review,
    Community,
    Governance,
    #[default]
    Other,
}

/// Off-chain vote status enum.
#[derive(Clone, Copy, Debug, Default, PartialEq, Eq, Structural)]
pub enum OffchainVoteStatus {
    #[default]
    Pending,
    Active,
    Completed,
    Cancelled,
    Failed,
}

/// Member status enum.
#[derive(Clone, Copy, Debug, PartialEq, Eq, Structural)]
pub enum MemberStatus {
    Active,
    Suspended,
    Banned,
    Inactive,
}

} // verus!
