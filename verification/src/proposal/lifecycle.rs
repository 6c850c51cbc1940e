//! Proposal lifecycle methods.

use vstd::prelude::*;

use crate::error::FsmError;
use crate::proposal::types::{Proposal, ProposalStatus};
use crate::text::byte_len;

verus! {

/// The naming texts of a proposal are acceptable when the title is 1-200
/// bytes, the description 1-2000 bytes, and the proposal type 1-50 bytes.
pub open spec fn proposal_texts_ok(
    title: Seq<char>,
    description: Seq<char>,
    proposal_type: Seq<char>,
) -> bool {
    title.len() > 0 && byte_len(title) <= 200 && description.len() > 0 && byte_len(description)
        <= 2000 && proposal_type.len() > 0 && byte_len(proposal_type) <= 50
}

/// The end of a proposal's voting window as `pass_with_time` and
/// `reject_with_time` compute it, from the creation time.
pub open spec fn voting_end_from_creation<P>(p: Proposal<P>) -> int {
    p.created_at + p.voting_duration
}

/// The start of the voting window as `auto_transition_after_voting` takes
/// it: the submission time where there is one, else the creation time.
pub open spec fn voting_start<P>(p: Proposal<P>) -> int {
    match p.submitted_at {
        Option::Some(t) => t as int,
        Option::None => p.created_at as int,
    }
}

impl<P> Proposal<P> {
    /// Create a new proposal, stamped with time zero.
    pub fn new(
        id: u64,
        title: String,
        description: String,
        proposal_type: String,
        author: P,
    ) -> (r: Result<Proposal<P>, FsmError>)
        ensures
            proposal_texts_ok(title@, description@, proposal_type@) ==> (r matches Ok(p) && p.id
                == id && p.title == title && p.description == description && p.proposal_type
                == proposal_type && p.author == author && p.created_at == 0 && p.updated_at is None
                && p.submitted_at is None && p.cancelled_at is None && p.executed_at is None
                && p.archived_at is None && p.voting_duration == 604800 && p.status
                == ProposalStatus::Draft && p.yes_votes == 0 && p.no_votes == 0 && p.total_votes
                == 0 && p.last_tallied_at is None && p.cancellation_reason is None
                && p.execution_data is None && p.expires_at is None && p.idea_id is None
                && p.treasury_operation is None),
            !proposal_texts_ok(title@, description@, proposal_type@) ==> r == Err::<
                Proposal<P>,
                FsmError,
            >(FsmError::InvalidInput),
    {
        Self::new_with_time(id, title, description, proposal_type, author, 0)
    }

    /// Create a new proposal with the given creation time. The texts must
    /// satisfy their length bounds; a new proposal starts out as a draft
    /// with a seven-day voting duration and no votes.
    pub fn new_with_time(
        id: u64,
        title: String,
        description: String,
        proposal_type: String,
        author: P,
        current_time: i64,
    ) -> (r: Result<Proposal<P>, FsmError>)
        ensures
            proposal_texts_ok(title@, description@, proposal_type@) ==> (r matches Ok(p) && p.id
                == id && p.title == title && p.description == description && p.proposal_type
                == proposal_type && p.author == author && p.created_at == current_time
                && p.updated_at is None && p.submitted_at is None && p.cancelled_at is None
                && p.executed_at is None && p.archived_at is None && p.voting_duration == 604800
                && p.status == ProposalStatus::Draft && p.yes_votes == 0 && p.no_votes == 0
                && p.total_votes == 0 && p.last_tallied_at is None && p.cancellation_reason is None
                && p.execution_data is None && p.expires_at is None && p.idea_id is None
                && p.treasury_operation is None),
            !proposal_texts_ok(title@, description@, proposal_type@) ==> r == Err::<
                Proposal<P>,
                FsmError,
            >(FsmError::InvalidInput),
    {
        if title.as_str().is_empty() {
            return Err(FsmError::InvalidInput);
        }
        if title.as_str().as_bytes().len() > 200 {
            return Err(FsmError::InvalidInput);
        }
        if description.as_str().is_empty() {
            return Err(FsmError::InvalidInput);
        }
        if description.as_str().as_bytes().len() > 2000 {
            return Err(FsmError::InvalidInput);
        }
        if proposal_type.as_str().is_empty() {
            return Err(FsmError::InvalidInput);
        }
        if proposal_type.as_str().as_bytes().len() > 50 {
            return Err(FsmError::InvalidInput);
        }
        Ok(
            Self {
                id,
                title,
                description,
                proposal_type,
                author,
                created_at: current_time,
                updated_at: None,
                submitted_at: None,
                cancelled_at: None,
                executed_at: None,
                archived_at: None,
                voting_duration: 7 * 24 * 3600,  // 7 days default
                status: ProposalStatus::Draft,
                yes_votes: 0,
                no_votes: 0,
                total_votes: 0,
                last_tallied_at: None,
                cancellation_reason: None,
                execution_data: None,
                expires_at: None,
                idea_id: None,
                treasury_operation: None,
            },
        )
    }

    /// Activate a draft proposal, stamping the submission with time zero.
    pub fn activate(&mut self, min_quorum: u64, total_members: u64) -> (r: Result<(), FsmError>)
        ensures
            old(self).status != ProposalStatus::Draft ==> (r == Err::<(), FsmError>(
                FsmError::InvalidInput,
            ) && *final(self) == *old(self)),
            (old(self).status == ProposalStatus::Draft && total_members < min_quorum) ==> (r
                == Err::<(), FsmError>(FsmError::InsufficientMembers) && *final(self) == *old(self)),
            (old(self).status == ProposalStatus::Draft && total_members >= min_quorum && min_quorum
                == 0) ==> (r == Err::<(), FsmError>(FsmError::InvalidInput) && *final(self)
                == *old(self)),
            (old(self).status == ProposalStatus::Draft && total_members >= min_quorum && min_quorum
                > 0) ==> (r is Ok && *final(self) == (Proposal {
                status: ProposalStatus::Active,
                submitted_at: Some(0i64),
                ..*old(self)
            })),
    {
        self.activate_with_time(min_quorum, total_members, 0)
    }

    /// Activate a draft proposal, moving it from `Draft` to `Active` and
    /// recording the submission time. There must be at least as many
    /// members as the quorum requires, and both counts must be positive.
    pub fn activate_with_time(
        &mut self,
        min_quorum: u64,
        total_members: u64,
        current_time: i64,
    ) -> (r: Result<(), FsmError>)
        ensures
            old(self).status != ProposalStatus::Draft ==> (r == Err::<(), FsmError>(
                FsmError::InvalidInput,
            ) && *final(self) == *old(self)),
            (old(self).status == ProposalStatus::Draft && total_members < min_quorum) ==> (r
                == Err::<(), FsmError>(FsmError::InsufficientMembers) && *final(self) == *old(self)),
            (old(self).status == ProposalStatus::Draft && total_members >= min_quorum && min_quorum
                == 0) ==> (r == Err::<(), FsmError>(FsmError::InvalidInput) && *final(self)
                == *old(self)),
            (old(self).status == ProposalStatus::Draft && total_members >= min_quorum && min_quorum
                > 0) ==> (r is Ok && *final(self) == (Proposal {
                status: ProposalStatus::Active,
                submitted_at: Some(current_time),
                ..*old(self)
            })),
    {
        if !(self.status == ProposalStatus::Draft) {
            return Err(FsmError::InvalidInput);
        }
        if !(total_members >= min_quorum) {
            return Err(FsmError::InsufficientMembers);
        }
        if !(min_quorum > 0) {
            return Err(FsmError::InvalidInput);
        }
        if !(total_members > 0) {
            return Err(FsmError::InvalidInput);
        }
        self.status = ProposalStatus::Active;
        self.submitted_at = Some(current_time);
        Ok(())
    }

    /// Pass an active proposal at time zero; this only succeeds when the
    /// voting window ends at or before time zero.
    pub fn pass(&mut self) -> (r: Result<(), FsmError>)
        requires
            old(self).status == ProposalStatus::Active ==> i64::MIN <= voting_end_from_creation(
                *old(self),
            ) <= i64::MAX,
        ensures
            old(self).status != ProposalStatus::Active ==> (r == Err::<(), FsmError>(
                FsmError::InvalidInput,
            ) && *final(self) == *old(self)),
            (old(self).status == ProposalStatus::Active && 0 < voting_end_from_creation(
                *old(self),
            )) ==> (r == Err::<(), FsmError>(FsmError::InvalidState) && *final(self) == *old(self)),
            (old(self).status == ProposalStatus::Active && 0 >= voting_end_from_creation(
                *old(self),
            )) ==> (r is Ok && *final(self) == (Proposal {
                status: ProposalStatus::Passed,
                ..*old(self)
            })),
    {
        self.pass_with_time(0)
    }

    /// Pass an active proposal once its voting window, counted from the
    /// creation time, has ended.
    pub fn pass_with_time(&mut self, current_time: i64) -> (r: Result<(), FsmError>)
        requires
            old(self).status == ProposalStatus::Active ==> i64::MIN <= voting_end_from_creation(
                *old(self),
            ) <= i64::MAX,
        ensures
            old(self).status != ProposalStatus::Active ==> (r == Err::<(), FsmError>(
                FsmError::InvalidInput,
            ) && *final(self) == *old(self)),
            (old(self).status == ProposalStatus::Active && current_time < voting_end_from_creation(
                *old(self),
            )) ==> (r == Err::<(), FsmError>(FsmError::InvalidState) && *final(self) == *old(self)),
            (old(self).status == ProposalStatus::Active && current_time
                >= voting_end_from_creation(*old(self))) ==> (r is Ok && *final(self) == (Proposal {
                status: ProposalStatus::Passed,
                ..*old(self)
            })),
    {
        if !(self.status == ProposalStatus::Active) {
            return Err(FsmError::InvalidInput);
        }
        let voting_end = self.created_at + self.voting_duration;
        if !(current_time >= voting_end) {
            return Err(FsmError::InvalidState);
        }
        self.status = ProposalStatus::Passed;
        Ok(())
    }

    /// Reject an active proposal at time zero; this only succeeds when the
    /// voting window ends at or before time zero.
    pub fn reject(&mut self) -> (r: Result<(), FsmError>)
        requires
            old(self).status == ProposalStatus::Active ==> i64::MIN <= voting_end_from_creation(
                *old(self),
            ) <= i64::MAX,
        ensures
            old(self).status != ProposalStatus::Active ==> (r == Err::<(), FsmError>(
                FsmError::InvalidInput,
            ) && *final(self) == *old(self)),
            (old(self).status == ProposalStatus::Active && 0 < voting_end_from_creation(
                *old(self),
            )) ==> (r == Err::<(), FsmError>(FsmError::InvalidState) && *final(self) == *old(self)),
            (old(self).status == ProposalStatus::Active && 0 >= voting_end_from_creation(
                *old(self),
            )) ==> (r is Ok && *final(self) == (Proposal {
                status: ProposalStatus::Rejected,
                ..*old(self)
            })),
    {
        self.reject_with_time(0)
    }

    /// Reject an active proposal once its voting window, counted from the
    /// creation time, has ended.
    pub fn reject_with_time(&mut self, current_time: i64) -> (r: Result<(), FsmError>)
        requires
            old(self).status == ProposalStatus::Active ==> i64::MIN <= voting_end_from_creation(
                *old(self),
            ) <= i64::MAX,
        ensures
            old(self).status != ProposalStatus::Active ==> (r == Err::<(), FsmError>(
                FsmError::InvalidInput,
            ) && *final(self) == *old(self)),
            (old(self).status == ProposalStatus::Active && current_time < voting_end_from_creation(
                *old(self),
            )) ==> (r == Err::<(), FsmError>(FsmError::InvalidState) && *final(self) == *old(self)),
            (old(self).status == ProposalStatus::Active && current_time
                >= voting_end_from_creation(*old(self))) ==> (r is Ok && *final(self) == (Proposal {
                status: ProposalStatus::Rejected,
                ..*old(self)
            })),
    {
        if !(self.status == ProposalStatus::Active) {
            return Err(FsmError::InvalidInput);
        }
        let voting_end = self.created_at + self.voting_duration;
        if !(current_time >= voting_end) {
            return Err(FsmError::InvalidState);
        }
        self.status = ProposalStatus::Rejected;
        Ok(())
    }

    /// Execute a passed proposal, stamping the execution with time zero.
    pub fn execute(&mut self) -> (r: Result<(), FsmError>)
        ensures
            old(self).status != ProposalStatus::Passed ==> (r == Err::<(), FsmError>(
                FsmError::InvalidInput,
            ) && *final(self) == *old(self)),
            (old(self).status == ProposalStatus::Passed && old(self).executed_at is Some) ==> (r
                == Err::<(), FsmError>(FsmError::InvalidState) && *final(self) == *old(self)),
            (old(self).status == ProposalStatus::Passed && old(self).executed_at is None) ==> (r
                is Ok && *final(self) == (Proposal {
                status: ProposalStatus::Executed,
                executed_at: Some(0i64),
                ..*old(self)
            })),
    {
        self.execute_with_time(0)
    }

    /// Execute a passed proposal, moving it from `Passed` to `Executed`
    /// and recording the execution time; a proposal cannot be executed
    /// twice.
    pub fn execute_with_time(&mut self, current_time: i64) -> (r: Result<(), FsmError>)
        ensures
            old(self).status != ProposalStatus::Passed ==> (r == Err::<(), FsmError>(
                FsmError::InvalidInput,
            ) && *final(self) == *old(self)),
            (old(self).status == ProposalStatus::Passed && old(self).executed_at is Some) ==> (r
                == Err::<(), FsmError>(FsmError::InvalidState) && *final(self) == *old(self)),
            (old(self).status == ProposalStatus::Passed && old(self).executed_at is None) ==> (r
                is Ok && *final(self) == (Proposal {
                status: ProposalStatus::Executed,
                executed_at: Some(current_time),
                ..*old(self)
            })),
    {
        if !(self.status == ProposalStatus::Passed) {
            return Err(FsmError::InvalidInput);
        }
        if !(self.executed_at.is_none()) {
            return Err(FsmError::InvalidState);
        }
        self.status = ProposalStatus::Executed;
        self.executed_at = Some(current_time);
        Ok(())
    }

    /// Cancel a draft or active proposal, stamping the cancellation with
    /// time zero.
    pub fn cancel(&mut self, reason: String) -> (r: Result<(), FsmError>)
        ensures
            !(old(self).status == ProposalStatus::Draft || old(self).status
                == ProposalStatus::Active) ==> (r == Err::<(), FsmError>(FsmError::InvalidInput)
                && *final(self) == *old(self)),
            (old(self).status == ProposalStatus::Draft || old(self).status
                == ProposalStatus::Active) ==> (r is Ok && *final(self) == (Proposal {
                status: ProposalStatus::Cancelled,
                cancelled_at: Some(0i64),
                cancellation_reason: Some(reason),
                ..*old(self)
            })),
    {
        self.cancel_with_time(reason, 0)
    }

    /// Cancel a draft or active proposal, recording the cancellation time
    /// and the reason.
    pub fn cancel_with_time(&mut self, reason: String, current_time: i64) -> (r: Result<
        (),
        FsmError,
    >)
        ensures
            !(old(self).status == ProposalStatus::Draft || old(self).status
                == ProposalStatus::Active) ==> (r == Err::<(), FsmError>(FsmError::InvalidInput)
                && *final(self) == *old(self)),
            (old(self).status == ProposalStatus::Draft || old(self).status
                == ProposalStatus::Active) ==> (r is Ok && *final(self) == (Proposal {
                status: ProposalStatus::Cancelled,
                cancelled_at: Some(current_time),
                cancellation_reason: Some(reason),
                ..*old(self)
            })),
    {
        if !(self.status == ProposalStatus::Draft || self.status == ProposalStatus::Active) {
            return Err(FsmError::InvalidInput);
        }
        self.status = ProposalStatus::Cancelled;
        self.cancelled_at = Some(current_time);
        self.cancellation_reason = Some(reason);
        Ok(())
    }

    /// Archive a finished proposal, stamping the change with time zero.
    pub fn archive(&mut self) -> (r: Result<(), FsmError>)
        ensures
            !(old(self).status == ProposalStatus::Executed || old(self).status
                == ProposalStatus::Rejected || old(self).status == ProposalStatus::Cancelled) ==> (
            r == Err::<(), FsmError>(FsmError::InvalidInput) && *final(self) == *old(self)),
            (old(self).status == ProposalStatus::Executed || old(self).status
                == ProposalStatus::Rejected || old(self).status == ProposalStatus::Cancelled) ==> (
            r is Ok && *final(self) == (Proposal {
                status: ProposalStatus::Archived,
                archived_at: Some(0i64),
                ..*old(self)
            })),
    {
        self.archive_with_time(0)
    }

    /// Archive an executed, rejected or cancelled proposal, recording the
    /// archival time.
    pub fn archive_with_time(&mut self, current_time: i64) -> (r: Result<(), FsmError>)
        ensures
            !(old(self).status == ProposalStatus::Executed || old(self).status
                == ProposalStatus::Rejected || old(self).status == ProposalStatus::Cancelled) ==> (
            r == Err::<(), FsmError>(FsmError::InvalidInput) && *final(self) == *old(self)),
            (old(self).status == ProposalStatus::Executed || old(self).status
                == ProposalStatus::Rejected || old(self).status == ProposalStatus::Cancelled) ==> (
            r is Ok && *final(self) == (Proposal {
                status: ProposalStatus::Archived,
                archived_at: Some(current_time),
                ..*old(self)
            })),
    {
        if !(self.status == ProposalStatus::Executed || self.status == ProposalStatus::Rejected
            || self.status == ProposalStatus::Cancelled) {
            return Err(FsmError::InvalidInput);
        }
        self.status = ProposalStatus::Archived;
        self.archived_at = Some(current_time);
        Ok(())
    }

    /// Check whether the proposal has expired and auto-archive it if so.
    /// Only a proposal in a finalizable state (executed, rejected or
    /// cancelled) is archived; the result says whether it was.
    pub fn check_and_auto_archive(&mut self, current_time: i64) -> (r: Result<bool, FsmError>)
        ensures
            ((old(self).expires_at matches Some(e) && current_time >= e) && (old(self).status
                == ProposalStatus::Executed || old(self).status == ProposalStatus::Rejected || old(self).status == ProposalStatus::Cancelled)) ==> (r == Ok::<bool, FsmError>(true) && *final(self) == (Proposal {
                status: ProposalStatus::Archived,
                archived_at: Some(current_time),
                ..*old(self)
            })),
            !((old(self).expires_at matches Some(e) && current_time >= e) && (old(self).status
                == ProposalStatus::Executed || old(self).status == ProposalStatus::Rejected || old(self).status == ProposalStatus::Cancelled)) ==> (r == Ok::<bool, FsmError>(false) && *final(self) == *old(self)),
    {
        if let Some(expires_at) = self.expires_at {
            if current_time >= expires_at {
                if self.status == ProposalStatus::Executed || self.status
                    == ProposalStatus::Rejected || self.status == ProposalStatus::Cancelled {
                    let archived = self.archive_with_time(current_time);
                    match archived {
                        Ok(_) => {
                            return Ok(true);
                        },
                        Err(e) => {
                            return Err(e);
                        },
                    }
                }
            }
        }
        Ok(false)
    }

    /// Set or clear the expiration time; an expiry must lie strictly after
    /// the creation time.
    pub fn set_expiration(&mut self, expires_at: Option<i64>) -> (r: Result<(), FsmError>)
        ensures
            (expires_at matches Some(e) && e <= old(self).created_at) ==> (r == Err::<
                (),
                FsmError,
            >(FsmError::InvalidInput) && *final(self) == *old(self)),
            !(expires_at matches Some(e) && e <= old(self).created_at) ==> (r is Ok && *final(self)
                == (Proposal { expires_at, ..*old(self) })),
    {
        if let Some(exp) = expires_at {
            if !(exp > self.created_at) {
                return Err(FsmError::InvalidInput);
            }
        }
        self.expires_at = expires_at;
        Ok(())
    }

    /// Automatically resolve an active proposal once its voting window,
    /// counted from the submission time where there is one, has ended:
    /// more yes than no votes passes it, more no than yes rejects it, and
    /// a tie marks it `Tied`. The result says whether a transition
    /// happened.
    pub fn auto_transition_after_voting(&mut self, current_time: i64) -> (r: Result<
        bool,
        FsmError,
    >)
        requires
            (old(self).status == ProposalStatus::Active && old(self).yes_votes != old(self).no_votes && i64::MIN <= voting_start(*old(self)) + old(self).voting_duration
                <= i64::MAX && current_time >= voting_start(*old(self)) + old(self).voting_duration) ==> i64::MIN <= voting_end_from_creation(*old(self)) <= i64::MAX,
        ensures
            old(self).status != ProposalStatus::Active ==> (r == Ok::<bool, FsmError>(false)
                && *final(self) == *old(self)),
            (old(self).status == ProposalStatus::Active && !(i64::MIN <= voting_start(*old(self))
                + old(self).voting_duration <= i64::MAX)) ==> (r == Err::<bool, FsmError>(
                FsmError::Overflow,
            ) && *final(self) == *old(self)),
            (old(self).status == ProposalStatus::Active && i64::MIN <= voting_start(*old(self))
                + old(self).voting_duration <= i64::MAX && current_time < voting_start(*old(self))
                + old(self).voting_duration) ==> (r == Ok::<bool, FsmError>(false) && *final(self)
                == *old(self)),
            (old(self).status == ProposalStatus::Active && i64::MIN <= voting_start(*old(self))
                + old(self).voting_duration <= i64::MAX && current_time >= voting_start(
                *old(self),
            ) + old(self).voting_duration) ==> (if old(self).yes_votes > old(self).no_votes {
                (if current_time >= voting_end_from_creation(*old(self)) {
                    r == Ok::<bool, FsmError>(true) && *final(self) == (Proposal {
                        status: ProposalStatus::Passed,
                        ..*old(self)
                    })
                } else {
                    r == Err::<bool, FsmError>(FsmError::InvalidState) && *final(self) == *old(self)
                })
            } else if old(self).no_votes > old(self).yes_votes {
                (if current_time >= voting_end_from_creation(*old(self)) {
                    r == Ok::<bool, FsmError>(true) && *final(self) == (Proposal {
                        status: ProposalStatus::Rejected,
                        ..*old(self)
                    })
                } else {
                    r == Err::<bool, FsmError>(FsmError::InvalidState) && *final(self) == *old(self)
                })
            } else {
                r == Ok::<bool, FsmError>(true) && *final(self) == (Proposal {
                    status: ProposalStatus::Tied,
                    last_tallied_at: Some(current_time),
                    ..*old(self)
                })
            }),
    {
        if self.status != ProposalStatus::Active {
            return Ok(false);
        }
        let voting_start_time = match self.submitted_at {
            Some(submitted) => submitted,
            None => self.created_at,
        };
        let voting_end = match voting_start_time.checked_add(self.voting_duration) {
            Some(voting_end) => voting_end,
            None => {
                return Err(FsmError::Overflow);
            },
        };
        if current_time >= voting_end {
            if self.yes_votes > self.no_votes {
                match self.pass_with_time(current_time) {
                    Ok(_) => {},
                    Err(e) => {
                        return Err(e);
                    },
                }
                return Ok(true);
            } else if self.no_votes > self.yes_votes {
                match self.reject_with_time(current_time) {
                    Ok(_) => {},
                    Err(e) => {
                        return Err(e);
                    },
                }
                return Ok(true);
            } else {
                self.status = ProposalStatus::Tied;
                self.last_tallied_at = Some(current_time);
                return Ok(true);
            }
        }
        Ok(false)
    }

    /// Whether the proposal can be activated automatically; activation
    /// currently always requires a manual call.
    pub fn can_auto_activate(&self) -> (r: bool)
        ensures
            r == false,
    {
        false
    }
}

} // verus!
