//! Grant data model and lifecycle helpers.

pub mod lifecycle;
pub mod types;
pub mod vote;
pub mod voting_types;

pub use lifecycle::{EntityId, Grant};
pub use types::{
    GrantCategory, GrantDisbursementType, GrantStatus, GrantType, VerificationStatus,
};
pub use vote::{GrantVote, VoterType};
pub use voting_types::VoteType;
