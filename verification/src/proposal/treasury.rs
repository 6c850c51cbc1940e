//! Treasury proposal types: specialized payload data for proposals that
//! operate on a treasury.

use vstd::prelude::*;

use crate::error::FsmError;
use crate::text::byte_len;

verus! {

/// Treasury proposal type.
#[derive(Clone, Debug, PartialEq, Eq, Structural)]
pub enum TreasuryProposalType {
    /// Withdraw funds from treasury.
    Withdrawal,
    /// Deposit funds to treasury.
    Deposit,
    /// Transfer funds between treasuries.
    Transfer,
    /// Grant capability for treasury operations.
    GrantCapability,
    /// Revoke capability.
    RevokeCapability,
    /// Update treasury configuration.
    UpdateConfig,
}

/// Treasury proposal operation data, generic over the key type that
/// identifies a treasury or a grantee.
#[derive(Debug, Clone, PartialEq, Eq)]
pub struct TreasuryOperationData<P> {
    pub operation_type: TreasuryProposalType,
    /// For withdrawal, deposit and transfer.
    pub amount: Option<u64>,
    /// For transfer.
    pub target_treasury: Option<P>,
    /// For grant/revoke capability.
    pub capability_grantee: Option<P>,
    /// For grant capability.
    pub capability_type: Option<String>,
    /// For grant capability.
    pub expires_at: Option<i64>,
    /// Operation description.
    pub description: String,
}

/// The per-operation requirements of `TreasuryOperationData::validate`:
/// monetary operations need a positive amount (and transfers a target),
/// capability grants need a grantee, a type and an expiry in the future,
/// and revocations need a grantee.
pub open spec fn operation_requirements_ok<P>(
    data: TreasuryOperationData<P>,
    current_time: i64,
) -> bool {
    match data.operation_type {
        TreasuryProposalType::Withdrawal => data.amount matches Some(a) && a > 0,
        TreasuryProposalType::Deposit => data.amount matches Some(a) && a > 0,
        TreasuryProposalType::Transfer => (data.amount matches Some(a) && a > 0)
            && data.target_treasury is Some,
        TreasuryProposalType::GrantCapability => data.capability_grantee is Some
            && data.capability_type is Some && (data.expires_at matches Some(e) && e
            > current_time),
        TreasuryProposalType::RevokeCapability => data.capability_grantee is Some,
        TreasuryProposalType::UpdateConfig => true,
    }
}

/// Whether the whole payload is valid: the per-operation requirements hold
/// and the description is non-empty and at most 200 bytes long.
pub open spec fn operation_data_ok<P>(data: TreasuryOperationData<P>, current_time: i64) -> bool {
    operation_requirements_ok(data, current_time) && data.description@.len() > 0 && byte_len(
        data.description@,
    ) <= 200
}

impl<P> TreasuryOperationData<P> {
    /// Validate the payload for its operation type.
    pub fn validate(&self, current_time: i64) -> (r: Result<(), FsmError>)
        ensures
            r == (if operation_data_ok(*self, current_time) {
                Ok::<(), FsmError>(())
            } else {
                Err::<(), FsmError>(FsmError::InvalidInput)
            }),
    {
        match &self.operation_type {
            TreasuryProposalType::Withdrawal
            | TreasuryProposalType::Deposit
            | TreasuryProposalType::Transfer => {
                match self.amount {
                    Some(amount) => {
                        if !(amount > 0) {
                            return Err(FsmError::InvalidInput);
                        }
                    },
                    None => {
                        return Err(FsmError::InvalidInput);
                    },
                }
                if self.operation_type == TreasuryProposalType::Transfer {
                    if !(self.target_treasury.is_some()) {
                        return Err(FsmError::InvalidInput);
                    }
                }
            },
            TreasuryProposalType::GrantCapability => {
                if !(self.capability_grantee.is_some()) {
                    return Err(FsmError::InvalidInput);
                }
                if !(self.capability_type.is_some()) {
                    return Err(FsmError::InvalidInput);
                }
                match self.expires_at {
                    Some(exp) => {
                        if !(exp > current_time) {
                            return Err(FsmError::InvalidInput);
                        }
                    },
                    None => {
                        return Err(FsmError::InvalidInput);
                    },
                }
            },
            TreasuryProposalType::RevokeCapability => {
                if !(self.capability_grantee.is_some()) {
                    return Err(FsmError::InvalidInput);
                }
            },
            TreasuryProposalType::UpdateConfig => {},
        }
        if self.description.as_str().is_empty() {
            return Err(FsmError::InvalidInput);
        }
        if self.description.as_str().as_bytes().len() > 200 {
            return Err(FsmError::InvalidInput);
        }
        Ok(())
    }
}

} // verus!
