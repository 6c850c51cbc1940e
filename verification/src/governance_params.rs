//! Adaptive governance parameters.
//!
//! Governance parameters are not static: they adapt based on metrics and
//! recommendations, under bounds checked here.

use vstd::prelude::*;

use crate::error::FsmError;

verus! {

/// Adaptive governance parameters.
#[derive(Debug, Clone, PartialEq, Eq)]
pub struct GovernanceParams {
    /// Quorum percentage (1-100).
    pub quorum_percentage: u8,
    /// Voting duration in hours (24-720).
    pub vote_duration_hours: u64,
    /// Delegate weight percentage (0-100).
    pub delegate_weight_percentage: u8,
    /// Early quorum enabled.
    pub early_quorum_enabled: bool,
    /// Last update time.
    pub update_timestamp: i64,
}

/// Whether a requested quorum percentage is acceptable against the current
/// one: within 1-100 and changing by at most ten points. `None` requests no
/// change and is always acceptable.
pub open spec fn quorum_update_ok(requested: Option<u8>, current: u8) -> bool {
    match requested {
        Option::None => true,
        Option::Some(q) => 0 < q <= 100 && (if q >= current {
            q - current
        } else {
            current - q
        }) <= 10,
    }
}

/// Whether a requested voting duration is acceptable: between one day and
/// thirty days, in hours. `None` requests no change.
pub open spec fn duration_update_ok(requested: Option<u64>) -> bool {
    match requested {
        Option::None => true,
        Option::Some(d) => 24 <= d <= 720,
    }
}

/// Whether a requested delegate weight is acceptable: at most 100. `None`
/// requests no change.
pub open spec fn weight_update_ok(requested: Option<u8>) -> bool {
    match requested {
        Option::None => true,
        Option::Some(w) => w <= 100,
    }
}

/// The requested value where one is given, else the current one.
pub open spec fn updated_u8(requested: Option<u8>, current: u8) -> u8 {
    match requested {
        Option::None => current,
        Option::Some(v) => v,
    }
}

/// The requested value where one is given, else the current one.
pub open spec fn updated_u64(requested: Option<u64>, current: u64) -> u64 {
    match requested {
        Option::None => current,
        Option::Some(v) => v,
    }
}

/// The requested value where one is given, else the current one.
pub open spec fn updated_bool(requested: Option<bool>, current: bool) -> bool {
    match requested {
        Option::None => current,
        Option::Some(v) => v,
    }
}

impl GovernanceParams {
    /// Create new governance parameters. The quorum percentage must be
    /// within 1-100, the voting duration within 24-720 hours, and the
    /// delegate weight at most 100.
    pub fn new(
        quorum_percentage: u8,
        vote_duration_hours: u64,
        delegate_weight_percentage: u8,
        early_quorum_enabled: bool,
        current_time: i64,
    ) -> (r: Result<Self, FsmError>)
        ensures
            (0 < quorum_percentage <= 100 && 24 <= vote_duration_hours <= 720
                && delegate_weight_percentage <= 100) ==> r == Ok::<GovernanceParams, FsmError>(
                GovernanceParams {
                    quorum_percentage,
                    vote_duration_hours,
                    delegate_weight_percentage,
                    early_quorum_enabled,
                    update_timestamp: current_time,
                },
            ),
            !(0 < quorum_percentage <= 100 && 24 <= vote_duration_hours <= 720
                && delegate_weight_percentage <= 100) ==> r == Err::<GovernanceParams, FsmError>(
                FsmError::InvalidInput,
            ),
    {
        if !(quorum_percentage > 0 && quorum_percentage <= 100) {
            return Err(FsmError::InvalidInput);
        }
        if !(24 <= vote_duration_hours && vote_duration_hours <= 720) {
            return Err(FsmError::InvalidInput);
        }
        if !(delegate_weight_percentage <= 100) {
            return Err(FsmError::InvalidInput);
        }
        Ok(
            Self {
                quorum_percentage,
                vote_duration_hours,
                delegate_weight_percentage,
                early_quorum_enabled,
                update_timestamp: current_time,
            },
        )
    }

    /// Update governance parameters. Each field is validated and applied in
    /// turn: a rejected quorum leaves everything unchanged, while a
    /// rejected duration or weight leaves the fields validated before it
    /// already applied. The quorum may move by at most ten points per
    /// update.
    pub fn update(
        &mut self,
        quorum_percentage: Option<u8>,
        vote_duration_hours: Option<u64>,
        delegate_weight_percentage: Option<u8>,
        early_quorum_enabled: Option<bool>,
        current_time: i64,
    ) -> (r: Result<(), FsmError>)
        ensures
            (quorum_update_ok(quorum_percentage, old(self).quorum_percentage)
                && duration_update_ok(vote_duration_hours)
                && weight_update_ok(delegate_weight_percentage)) ==> (r is Ok && *final(self) == (
            GovernanceParams {
                quorum_percentage: updated_u8(quorum_percentage, old(self).quorum_percentage),
                vote_duration_hours: updated_u64(
                    vote_duration_hours,
                    old(self).vote_duration_hours,
                ),
                delegate_weight_percentage: updated_u8(
                    delegate_weight_percentage,
                    old(self).delegate_weight_percentage,
                ),
                early_quorum_enabled: updated_bool(
                    early_quorum_enabled,
                    old(self).early_quorum_enabled,
                ),
                update_timestamp: current_time,
            })),
            !quorum_update_ok(quorum_percentage, old(self).quorum_percentage) ==> (r == Err::<
                (),
                FsmError,
            >(FsmError::InvalidInput) && *final(self) == *old(self)),
            (quorum_update_ok(quorum_percentage, old(self).quorum_percentage)
                && !duration_update_ok(vote_duration_hours)) ==> (r == Err::<(), FsmError>(
                FsmError::InvalidInput,
            ) && *final(self) == (GovernanceParams {
                quorum_percentage: updated_u8(quorum_percentage, old(self).quorum_percentage),
                ..*old(self)
            })),
            (quorum_update_ok(quorum_percentage, old(self).quorum_percentage)
                && duration_update_ok(vote_duration_hours) && !weight_update_ok(
                delegate_weight_percentage,
            )) ==> (r == Err::<(), FsmError>(FsmError::InvalidInput) && *final(self) == (
            GovernanceParams {
                quorum_percentage: updated_u8(quorum_percentage, old(self).quorum_percentage),
                vote_duration_hours: updated_u64(
                    vote_duration_hours,
                    old(self).vote_duration_hours,
                ),
                ..*old(self)
            })),
    {
        if let Some(quorum) = quorum_percentage {
            if !(quorum > 0 && quorum <= 100) {
                return Err(FsmError::InvalidInput);
            }
            let diff = if quorum >= self.quorum_percentage {
                quorum - self.quorum_percentage
            } else {
                self.quorum_percentage - quorum
            };
            if !(diff <= 10) {
                return Err(FsmError::InvalidInput);
            }
            self.quorum_percentage = quorum;
        }
        if let Some(duration) = vote_duration_hours {
            if !(24 <= duration && duration <= 720) {
                return Err(FsmError::InvalidInput);
            }
            self.vote_duration_hours = duration;
        }
        if let Some(weight) = delegate_weight_percentage {
            if !(weight <= 100) {
                return Err(FsmError::InvalidInput);
            }
            self.delegate_weight_percentage = weight;
        }
        if let Some(enabled) = early_quorum_enabled {
            self.early_quorum_enabled = enabled;
        }
        self.update_timestamp = current_time;
        Ok(())
    }
}

} // verus!
