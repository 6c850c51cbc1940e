//! Grant lifecycle helpers.

use vstd::prelude::*;

use crate::error::FsmError;
use crate::grant::types::{
    GrantCategory, GrantDisbursementType, GrantStatus, GrantType, VerificationStatus,
};

verus! {

/// Identifier of an entity taking part in governance.
pub type EntityId = [u8; 32];

/// A grant awarded to a mesh group for an idea.
#[derive(Clone, Debug, PartialEq, Eq)]
pub struct Grant {
    pub id: u64,
    pub idea_id: u64,
    pub mesh_group_id: EntityId,
    pub category: GrantCategory,
    pub status: GrantStatus,
    pub base_amount: u64,
    pub reputation_bonus: u64,
    pub total_amount: u64,
    pub disbursed_amount: u64,
    pub grant_type: GrantType,
    pub disbursement_type: GrantDisbursementType,
    pub verification_status: VerificationStatus,
    pub created_at: i64,
    pub enabled: bool,
}

impl Grant {
    /// Create a pending grant whose total is the base amount plus the
    /// reputation bonus; fails with `Overflow` if that sum does not fit.
    pub fn new(
        id: u64,
        idea_id: u64,
        mesh_group_id: EntityId,
        category: GrantCategory,
        grant_type: GrantType,
        disbursement_type: GrantDisbursementType,
        base_amount: u64,
        reputation_bonus: u64,
        created_at: i64,
    ) -> (r: Result<Self, FsmError>)
        ensures
            base_amount + reputation_bonus <= u64::MAX ==> (r matches Ok(g) && g == (Grant {
                id,
                idea_id,
                mesh_group_id,
                category,
                status: GrantStatus::Pending,
                base_amount,
                reputation_bonus,
                total_amount: (base_amount + reputation_bonus) as u64,
                disbursed_amount: 0u64,
                grant_type,
                disbursement_type,
                verification_status: VerificationStatus::Pending,
                created_at,
                enabled: true,
            })),
            base_amount + reputation_bonus > u64::MAX ==> r == Err::<Grant, FsmError>(
                FsmError::Overflow,
            ),
    {
        let total_amount = match base_amount.checked_add(reputation_bonus) {
            Some(total) => total,
            None => {
                return Err(FsmError::Overflow);
            },
        };
        Ok(
            Self {
                id,
                idea_id,
                mesh_group_id,
                category,
                status: GrantStatus::Pending,
                base_amount,
                reputation_bonus,
                total_amount,
                disbursed_amount: 0,
                grant_type,
                disbursement_type,
                verification_status: VerificationStatus::Pending,
                created_at,
                enabled: true,
            },
        )
    }

    /// Move a pending grant to `Approved`.
    pub fn approve(&mut self) -> (r: Result<(), FsmError>)
        ensures
            old(self).status == GrantStatus::Pending ==> (r is Ok && *final(self) == (Grant {
                status: GrantStatus::Approved,
                ..*old(self)
            })),
            old(self).status != GrantStatus::Pending ==> (r == Err::<(), FsmError>(
                FsmError::InvalidState,
            ) && *final(self) == *old(self)),
    {
        if self.status != GrantStatus::Pending {
            return Err(FsmError::InvalidState);
        }
        self.status = GrantStatus::Approved;
        Ok(())
    }

    /// Move an approved grant to `Active`.
    pub fn activate(&mut self) -> (r: Result<(), FsmError>)
        ensures
            old(self).status == GrantStatus::Approved ==> (r is Ok && *final(self) == (Grant {
                status: GrantStatus::Active,
                ..*old(self)
            })),
            old(self).status != GrantStatus::Approved ==> (r == Err::<(), FsmError>(
                FsmError::InvalidState,
            ) && *final(self) == *old(self)),
    {
        if self.status != GrantStatus::Approved {
            return Err(FsmError::InvalidState);
        }
        self.status = GrantStatus::Active;
        Ok(())
    }

    /// Disburse `amount` from an active grant. The running total may never
    /// exceed the grant's total amount; reaching it exactly completes the
    /// grant.
    pub fn disburse(&mut self, amount: u64) -> (r: Result<(), FsmError>)
        ensures
            (old(self).status == GrantStatus::Active && old(self).disbursed_amount + amount <= old(self).total_amount) ==> (r is Ok && *final(self) == (Grant {
                disbursed_amount: (old(self).disbursed_amount + amount) as u64,
                status: (if old(self).disbursed_amount + amount == old(self).total_amount {
                    GrantStatus::Completed
                } else {
                    GrantStatus::Active
                }),
                ..*old(self)
            })),
            old(self).status != GrantStatus::Active ==> (r == Err::<(), FsmError>(
                FsmError::InvalidState,
            ) && *final(self) == *old(self)),
            (old(self).status == GrantStatus::Active && old(self).disbursed_amount + amount
                > u64::MAX) ==> (r == Err::<(), FsmError>(FsmError::Overflow) && *final(self)
                == *old(self)),
            (old(self).status == GrantStatus::Active && old(self).disbursed_amount + amount
                <= u64::MAX && old(self).disbursed_amount + amount > old(self).total_amount) ==> (r
                == Err::<(), FsmError>(FsmError::InvalidInput) && *final(self) == *old(self)),
    {
        if self.status != GrantStatus::Active {
            return Err(FsmError::InvalidState);
        }
        let new_amount = match self.disbursed_amount.checked_add(amount) {
            Some(new_amount) => new_amount,
            None => {
                return Err(FsmError::Overflow);
            },
        };
        if new_amount > self.total_amount {
            return Err(FsmError::InvalidInput);
        }
        self.disbursed_amount = new_amount;
        if self.disbursed_amount == self.total_amount {
            self.status = GrantStatus::Completed;
        }
        Ok(())
    }
}

impl Default for Grant {
    /// A zeroed, pending grant used as a placeholder value.
    fn default() -> (g: Grant)
        ensures
            g.id == 0,
            g.idea_id == 0,
            g.mesh_group_id@ == Seq::new(32, |i: int| 0u8),
            g.category == GrantCategory::Research,
            g.status == GrantStatus::Pending,
            g.base_amount == 0,
            g.reputation_bonus == 0,
            g.total_amount == 0,
            g.disbursed_amount == 0,
            g.grant_type == GrantType::Initial,
            g.disbursement_type == GrantDisbursementType::Standard,
            g.verification_status == VerificationStatus::Pending,
            g.created_at == 0,
            g.enabled == true,
    {
        Self {
            id: 0,
            idea_id: 0,
            mesh_group_id: [0u8; 32],
            category: GrantCategory::Research,
            status: GrantStatus::Pending,
            base_amount: 0,
            reputation_bonus: 0,
            total_amount: 0,
            disbursed_amount: 0,
            grant_type: GrantType::Initial,
            disbursement_type: GrantDisbursementType::Standard,
            verification_status: VerificationStatus::Pending,
            created_at: 0,
            enabled: true,
        }
    }
}

} // verus!
