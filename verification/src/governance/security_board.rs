//! Security board metadata.
//!
//! On-chain: metadata for security board members and their decisions.
//! The analysis behind a decision happens in an off-chain service.

use core::marker::PhantomData;

use vstd::prelude::*;

use crate::error::FsmError;

verus! {

/// Relies on `PhantomData::clone`: `PhantomData<T>` is a unit type with a
/// single value, and cloning it returns that value. This lets `Clone` be
/// derived for structs that carry a `PhantomData` marker field.
pub assume_specification<T: core::marker::PointeeSized>[ <PhantomData<T> as Clone>::clone ](
    v: &PhantomData<T>,
) -> (r: PhantomData<T>)
    ensures
        r == *v,
;

/// Security board member role.
#[derive(Clone, Copy, Debug, PartialEq, Eq, Structural)]
pub enum SecurityBoardMemberRole {
    Chairperson,
    Member,
    Advisor,
}

/// Security board decision status.
#[derive(Clone, Copy, Debug, PartialEq, Eq, Structural)]
pub enum SecurityBoardDecisionStatus {
    Pending,
    Approved,
    Rejected,
    Deferred,
}

/// Security board member metadata (on-chain), generic over the key type
/// that identifies a member.
#[derive(Debug, Clone, PartialEq, Eq)]
pub struct SecurityBoardMemberMetadata<P> {
    pub member_id: u64,
    pub member_pubkey: P,
    pub role: SecurityBoardMemberRole,
    pub joined_at: i64,
    pub last_active_at: i64,
    pub decisions_participated: u32,
}

/// Security board decision metadata (on-chain), generic over the key type
/// that identifies a member.
#[derive(Debug, Clone, PartialEq, Eq)]
pub struct SecurityBoardDecisionMetadata<P> {
    pub decision_id: u64,
    pub proposal_id: Option<u64>,
    pub status: SecurityBoardDecisionStatus,
    pub created_at: i64,
    pub decided_at: Option<i64>,
    pub decision_data_hash: [u8; 32],
    pub _phantom: PhantomData<P>,
}

/// Initialise board member metadata in place; the member id must be
/// non-zero, and the participation counter starts at zero.
pub fn initialize_board_member<P>(
    member: &mut SecurityBoardMemberMetadata<P>,
    member_id: u64,
    member_pubkey: P,
    role: SecurityBoardMemberRole,
    current_time: i64,
) -> (r: Result<(), FsmError>)
    ensures
        member_id != 0 ==> (r is Ok && *final(member) == (SecurityBoardMemberMetadata {
            member_id,
            member_pubkey,
            role,
            joined_at: current_time,
            last_active_at: current_time,
            decisions_participated: 0u32,
        })),
        member_id == 0 ==> (r == Err::<(), FsmError>(FsmError::InvalidInput) && *final(member)
            == *old(member)),
{
    if member_id == 0 {
        return Err(FsmError::InvalidInput);
    }
    member.member_id = member_id;
    member.member_pubkey = member_pubkey;
    member.role = role;
    member.joined_at = current_time;
    member.last_active_at = current_time;
    member.decisions_participated = 0;
    Ok(())
}

/// Initialise board decision metadata in place; the decision id must be
/// non-zero, and the decision starts out `Pending` and undecided.
pub fn initialize_decision<P>(
    decision: &mut SecurityBoardDecisionMetadata<P>,
    decision_id: u64,
    proposal_id: Option<u64>,
    decision_data_hash: [u8; 32],
    current_time: i64,
) -> (r: Result<(), FsmError>)
    ensures
        decision_id != 0 ==> (r is Ok && *final(decision) == (SecurityBoardDecisionMetadata {
            decision_id,
            proposal_id,
            status: SecurityBoardDecisionStatus::Pending,
            created_at: current_time,
            decided_at: None,
            decision_data_hash,
            _phantom: old(decision)._phantom,
        })),
        decision_id == 0 ==> (r == Err::<(), FsmError>(FsmError::InvalidInput) && *final(decision)
            == *old(decision)),
{
    if decision_id == 0 {
        return Err(FsmError::InvalidInput);
    }
    decision.decision_id = decision_id;
    decision.proposal_id = proposal_id;
    decision.status = SecurityBoardDecisionStatus::Pending;
    decision.created_at = current_time;
    decision.decided_at = None;
    decision.decision_data_hash = decision_data_hash;
    Ok(())
}

/// Placeholder for the off-chain proposal analyser, which reports no
/// recommendations here.
pub fn analyze_security_proposal(_proposal_id: u64) -> (r: Vec<String>)
    ensures
        r@ == Seq::<String>::empty(),
{
    Vec::new()
}

/// Placeholder for the off-chain board report generator, which returns no
/// data here.
pub fn generate_board_report(_board_id: u64) -> (r: Vec<u8>)
    ensures
        r@ == Seq::<u8>::empty(),
{
    Vec::new()
}

} // verus!
