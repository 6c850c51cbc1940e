//! Security policy metadata.
//!
//! On-chain: metadata for security policies. Enforcement happens in an
//! off-chain service.

use vstd::prelude::*;

use crate::error::FsmError;
use crate::text::byte_len;

verus! {

/// Security policy status.
#[derive(Clone, Copy, Debug, PartialEq, Eq, Structural)]
pub enum SecurityPolicyStatus {
    Active,
    Inactive,
    Draft,
}

/// Security policy metadata (on-chain).
#[derive(Debug, Clone, PartialEq, Eq)]
pub struct SecurityPolicyMetadata {
    pub policy_id: u64,
    pub name: String,
    pub status: SecurityPolicyStatus,
    pub created_at: i64,
    pub updated_at: i64,
    pub policy_data_hash: [u8; 32],
}

/// Initialise policy metadata in place. The policy id must be non-zero and
/// the name non-empty and at most 100 bytes long; a policy starts out as a
/// draft.
pub fn initialize_policy(
    policy: &mut SecurityPolicyMetadata,
    policy_id: u64,
    name: String,
    policy_data_hash: [u8; 32],
    current_time: i64,
) -> (r: Result<(), FsmError>)
    ensures
        (policy_id != 0 && name@.len() > 0 && byte_len(name@) <= 100) ==> (r is Ok && final(policy).policy_id == policy_id && final(policy).name@ == name@ && final(policy).status
            == SecurityPolicyStatus::Draft && final(policy).created_at == current_time && final(policy).updated_at == current_time && final(policy).policy_data_hash == policy_data_hash),
        (policy_id == 0 || name@.len() == 0 || byte_len(name@) > 100) ==> (r == Err::<
            (),
            FsmError,
        >(FsmError::InvalidInput) && *final(policy) == *old(policy)),
{
    if !(policy_id > 0) {
        return Err(FsmError::InvalidInput);
    }
    if name.as_str().is_empty() {
        return Err(FsmError::InvalidInput);
    }
    if name.as_str().as_bytes().len() > 100 {
        return Err(FsmError::InvalidInput);
    }
    policy.policy_id = policy_id;
    policy.name = name;
    policy.status = SecurityPolicyStatus::Draft;
    policy.created_at = current_time;
    policy.updated_at = current_time;
    policy.policy_data_hash = policy_data_hash;
    Ok(())
}

/// Placeholder for the off-chain policy enforcer, which reports no
/// enforcement here.
pub fn enforce_policy(_policy_id: u64) -> (r: bool)
    ensures
        r == false,
{
    false
}

} // verus!
