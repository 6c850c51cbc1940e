//! Grant vote types and weight calculations.

use vstd::prelude::*;

use crate::grant::voting_types::VoteType;

verus! {

/// Who is casting a vote on a grant.
#[derive(Copy, Clone, PartialEq, Eq, Debug, Structural)]
pub enum VoterType {
    MeshGroupMember,
    DaoMember,
    IdeaAuthor,
    Expert,
}

/// A single vote cast on a grant.
#[derive(Clone, Debug, PartialEq, Eq)]
pub struct GrantVote {
    pub grant_id: u64,
    pub voter_id: [u8; 32],
    pub vote_type: VoteType,
    pub weight: u64,
    pub voter_type: VoterType,
    pub cast_at: i64,
}

impl GrantVote {
    /// Base vote weight for a voter type: mesh-group members count double.
    pub fn calculate_weight(voter_type: VoterType) -> (w: u64)
        ensures
            w == (if voter_type == VoterType::MeshGroupMember {
                2u64
            } else {
                1u64
            }),
    {
        match voter_type {
            VoterType::MeshGroupMember => 2,
            _ => 1,
        }
    }

    /// Final weight: base weight times multiplier, saturating at `u64::MAX`.
    pub fn calculate_final_weight(base_weight: u64, multiplier: u64) -> (w: u64)
        ensures
            base_weight * multiplier <= u64::MAX ==> w == base_weight * multiplier,
            base_weight * multiplier > u64::MAX ==> w == u64::MAX,
    {
        match base_weight.checked_mul(multiplier) {
            Some(w) => w,
            None => u64::MAX,
        }
    }
}

} // verus!
