//! Grant-specific enums for the governance engine.

use vstd::prelude::*;

verus! {

/// Grant lifecycle status.
#[derive(Clone, Copy, Debug, PartialEq, Eq, Structural)]
pub enum GrantStatus {
    Pending,
    Approved,
    Active,
    Suspended,
    Completed,
    Cancelled,
    Rejected,
    Expired,
    Archived,
}

/// Grant category.
#[derive(Clone, Copy, Debug, PartialEq, Eq, Structural)]
pub enum GrantCategory {
    Research,
    Development,
    Community,
}

/// Grant kind within a funding programme.
#[derive(Clone, Copy, Debug, PartialEq, Eq, Structural)]
pub enum GrantType {
    Initial,
    Core,
    Final,
}

/// How a grant's funds are disbursed.
#[derive(Clone, Copy, Debug, PartialEq, Eq, Structural)]
pub enum GrantDisbursementType {
    Urgent,
    Escrow,
    Standard,
}

impl GrantDisbursementType {
    /// Whether a closing report is required for this disbursement type.
    pub fn requires_report(&self) -> (r: bool)
        ensures
            r == (*self == GrantDisbursementType::Escrow || *self
                == GrantDisbursementType::Standard),
    {
        matches!(self, GrantDisbursementType::Escrow | GrantDisbursementType::Standard)
    }

    /// Whether funds are held in escrow for this disbursement type.
    pub fn requires_escrow(&self) -> (r: bool)
        ensures
            r == (*self == GrantDisbursementType::Escrow),
    {
        matches!(self, GrantDisbursementType::Escrow)
    }

    /// Whether the grant can be closed without a report.
    pub fn can_close_without_report(&self) -> (r: bool)
        ensures
            r == (*self == GrantDisbursementType::Urgent),
    {
        matches!(self, GrantDisbursementType::Urgent)
    }
}

/// Verification status of a grant's deliverables.
#[derive(Clone, Copy, Debug, PartialEq, Eq, Structural)]
pub enum VerificationStatus {
    Pending,
    Verified,
    Rejected,
}

} // verus!
