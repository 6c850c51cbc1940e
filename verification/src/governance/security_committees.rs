//! Security committee metadata.
//!
//! On-chain: metadata for a security committee. Meeting coordination
//! happens in an off-chain service.

use vstd::prelude::*;

use crate::error::FsmError;
use crate::text::byte_len;

verus! {

/// Committee member role.
#[derive(Clone, Copy, Debug, PartialEq, Eq, Structural)]
pub enum CommitteeMemberRole {
    Chairperson,
    Member,
}

/// Security committee metadata (on-chain).
#[derive(Debug, Clone, PartialEq, Eq)]
pub struct SecurityCommitteeMetadata {
    pub committee_id: u64,
    pub name: String,
    pub created_at: i64,
    pub updated_at: i64,
}

/// Initialise committee metadata in place. The committee id must be
/// non-zero and the name non-empty and at most 100 bytes long.
pub fn initialize_committee(
    committee: &mut SecurityCommitteeMetadata,
    committee_id: u64,
    name: String,
    current_time: i64,
) -> (r: Result<(), FsmError>)
    ensures
        (committee_id != 0 && name@.len() > 0 && byte_len(name@) <= 100) ==> (r is Ok && final(committee).committee_id == committee_id && final(committee).name@ == name@ && final(committee).created_at == current_time && final(committee).updated_at == current_time),
        (committee_id == 0 || name@.len() == 0 || byte_len(name@) > 100) ==> (r == Err::<
            (),
            FsmError,
        >(FsmError::InvalidInput) && *final(committee) == *old(committee)),
{
    if committee_id == 0 {
        return Err(FsmError::InvalidInput);
    }
    if name.as_str().is_empty() {
        return Err(FsmError::InvalidInput);
    }
    if name.as_str().as_bytes().len() > 100 {
        return Err(FsmError::InvalidInput);
    }
    committee.committee_id = committee_id;
    committee.name = name;
    committee.created_at = current_time;
    committee.updated_at = current_time;
    Ok(())
}

/// Placeholder for the off-chain meeting coordinator, which reports no
/// meeting here.
pub fn coordinate_meeting(_committee_id: u64) -> (r: bool)
    ensures
        r == false,
{
    false
}

} // verus!
