//! Governance state modules: metadata records kept on-chain and the
//! placeholder hooks whose real work happens in an off-chain service.

pub mod analytics;
pub mod participation;
pub mod proposal_lifecycle;
pub mod quorum;
pub mod security_board;
pub mod security_committees;
pub mod security_excellence;
pub mod security_policies;
pub mod voting;

pub use analytics::{
    initialize_governance_analytics, GovernanceAnalyticsMetadata, GovernanceAnalyticsStatus,
    GovernanceAnalyticsType,
};
pub use participation::{
    initialize_governance_participation, GovernanceParticipationMetadata,
    GovernanceParticipationStatus, GovernanceParticipationType,
};
pub use proposal_lifecycle::{ProposalLifecycleMetadata, ProposalLifecycleStage};
pub use quorum::{QuorumCalculationMethod, QuorumMetadata};
pub use security_board::{
    SecurityBoardDecisionMetadata, SecurityBoardDecisionStatus, SecurityBoardMemberMetadata,
    SecurityBoardMemberRole,
};
pub use security_committees::{CommitteeMemberRole, SecurityCommitteeMetadata};
pub use security_excellence::SecurityExcellenceMetadata;
pub use security_policies::{SecurityPolicyMetadata, SecurityPolicyStatus};
pub use voting::{
    initialize_governance_voting, GovernanceVotingMetadata, GovernanceVotingStatus,
    GovernanceVotingType,
};
