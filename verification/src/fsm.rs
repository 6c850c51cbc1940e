//! Fixed transition tables for idea and grant state machines.
//!
//! Each state lists the states it may move to in one step. A transition from
//! a state to itself is always legal, as a universal no-op, whether or not
//! the table lists it.

use vstd::prelude::*;

use crate::enums::IdeaStatus;
use crate::error::FsmError;
use crate::grant::types::GrantStatus;

verus! {

impl IdeaStatus {
    /// The table row for a state: its legal successors, in order.
    pub open spec fn next_states_spec(self) -> Seq<IdeaStatus> {
        match self {
            IdeaStatus::Draft => seq![IdeaStatus::UnderReview, IdeaStatus::Voting],
            IdeaStatus::UnderReview => seq![
                IdeaStatus::Approved,
                IdeaStatus::Rejected,
                IdeaStatus::Voting,
            ],
            IdeaStatus::Voting => seq![IdeaStatus::Approved, IdeaStatus::Rejected],
            IdeaStatus::Approved => seq![IdeaStatus::InProgress, IdeaStatus::Paused],
            IdeaStatus::Rejected => seq![IdeaStatus::Archived, IdeaStatus::Resubmitted],
            IdeaStatus::InProgress => seq![
                IdeaStatus::Completed,
                IdeaStatus::Paused,
                IdeaStatus::Expired,
            ],
            IdeaStatus::Paused => seq![IdeaStatus::InProgress, IdeaStatus::Archived],
            IdeaStatus::Completed => seq![IdeaStatus::Executed, IdeaStatus::Archived],
            IdeaStatus::Executed => seq![IdeaStatus::Commercialization, IdeaStatus::Archived],
            IdeaStatus::Commercialization => seq![IdeaStatus::Archived],
            IdeaStatus::Archived => seq![IdeaStatus::Resubmitted],
            IdeaStatus::Resubmitted => seq![IdeaStatus::UnderReview, IdeaStatus::Voting],
            IdeaStatus::Expired => seq![IdeaStatus::Archived],
        }
    }

    /// A transition is legal when the target is the state itself (no-op) or
    /// stands in the state's table row.
    pub open spec fn can_transition_spec(self, target: IdeaStatus) -> bool {
        self == target || self.next_states_spec().contains(target)
    }

    /// Get all valid next states from the current state.
    pub fn next_states(&self) -> (r: Vec<IdeaStatus>)
        ensures
            r@ == self.next_states_spec(),
    {
        match self {
            IdeaStatus::Draft => vec![IdeaStatus::UnderReview, IdeaStatus::Voting],
            IdeaStatus::UnderReview => vec![
                IdeaStatus::Approved,
                IdeaStatus::Rejected,
                IdeaStatus::Voting,
            ],
            IdeaStatus::Voting => vec![IdeaStatus::Approved, IdeaStatus::Rejected],
            IdeaStatus::Approved => vec![IdeaStatus::InProgress, IdeaStatus::Paused],
            IdeaStatus::Rejected => vec![IdeaStatus::Archived, IdeaStatus::Resubmitted],
            IdeaStatus::InProgress => vec![
                IdeaStatus::Completed,
                IdeaStatus::Paused,
                IdeaStatus::Expired,
            ],
            IdeaStatus::Paused => vec![IdeaStatus::InProgress, IdeaStatus::Archived],
            IdeaStatus::Completed => vec![IdeaStatus::Executed, IdeaStatus::Archived],
            IdeaStatus::Executed => vec![IdeaStatus::Commercialization, IdeaStatus::Archived],
            IdeaStatus::Commercialization => vec![IdeaStatus::Archived],
            IdeaStatus::Archived => vec![IdeaStatus::Resubmitted],
            IdeaStatus::Resubmitted => vec![IdeaStatus::UnderReview, IdeaStatus::Voting],
            IdeaStatus::Expired => vec![IdeaStatus::Archived],
        }
    }

    /// Check whether a transition from the current state to `target` is
    /// valid.
    pub fn can_transition_to(&self, target: IdeaStatus) -> (r: bool)
        ensures
            r == self.can_transition_spec(target),
    {
        if *self == target {
            return true;
        }
        let next = self.next_states();
        let mut i: usize = 0;
        while i < next.len()
            invariant
                i <= next.len(),
                next@ == self.next_states_spec(),
                forall|j: int| 0 <= j < i ==> next@[j] != target,
            decreases next.len() - i,
        {
            if next[i] == target {
                return true;
            }
            i = i + 1;
        }
        false
    }

    /// Validate a transition, returning an error when it is illegal.
    pub fn validate_transition(&self, target: IdeaStatus) -> (r: Result<(), FsmError>)
        ensures
            r == (if self.can_transition_spec(target) {
                Ok::<(), FsmError>(())
            } else {
                Err::<(), FsmError>(FsmError::InvalidStateTransition)
            }),
    {
        if !self.can_transition_to(target) {
            return Err(FsmError::InvalidStateTransition);
        }
        Ok(())
    }
}

impl GrantStatus {
    /// The table row for a state: its legal successors, in order. `Archived`
    /// is terminal and has an empty row.
    pub open spec fn next_states_spec(self) -> Seq<GrantStatus> {
        match self {
            GrantStatus::Pending => seq![GrantStatus::Approved, GrantStatus::Rejected],
            GrantStatus::Approved => seq![GrantStatus::Active, GrantStatus::Suspended],
            GrantStatus::Active => seq![
                GrantStatus::Completed,
                GrantStatus::Cancelled,
                GrantStatus::Suspended,
                GrantStatus::Expired,
            ],
            GrantStatus::Suspended => seq![GrantStatus::Active, GrantStatus::Cancelled],
            GrantStatus::Completed => seq![GrantStatus::Archived],
            GrantStatus::Cancelled => seq![GrantStatus::Archived],
            GrantStatus::Rejected => seq![GrantStatus::Archived],
            GrantStatus::Expired => seq![GrantStatus::Archived],
            GrantStatus::Archived => Seq::empty(),
        }
    }

    /// A transition is legal when the target is the state itself (no-op) or
    /// stands in the state's table row.
    pub open spec fn can_transition_spec(self, target: GrantStatus) -> bool {
        self == target || self.next_states_spec().contains(target)
    }

    /// Get all valid next states from the current state.
    pub fn next_states(&self) -> (r: Vec<GrantStatus>)
        ensures
            r@ == self.next_states_spec(),
    {
        match self {
            GrantStatus::Pending => vec![GrantStatus::Approved, GrantStatus::Rejected],
            GrantStatus::Approved => vec![GrantStatus::Active, GrantStatus::Suspended],
            GrantStatus::Active => vec![
                GrantStatus::Completed,
                GrantStatus::Cancelled,
                GrantStatus::Suspended,
                GrantStatus::Expired,
            ],
            GrantStatus::Suspended => vec![GrantStatus::Active, GrantStatus::Cancelled],
            GrantStatus::Completed => vec![GrantStatus::Archived],
            GrantStatus::Cancelled => vec![GrantStatus::Archived],
            GrantStatus::Rejected => vec![GrantStatus::Archived],
            GrantStatus::Expired => vec![GrantStatus::Archived],
            GrantStatus::Archived => {
                let empty: Vec<GrantStatus> = Vec::new();
                empty
            },
        }
    }

    /// Check whether a transition from the current state to `target` is
    /// valid.
    pub fn can_transition_to(&self, target: GrantStatus) -> (r: bool)
        ensures
            r == self.can_transition_spec(target),
    {
        if *self == target {
            return true;
        }
        let next = self.next_states();
        let mut i: usize = 0;
        while i < next.len()
            invariant
                i <= next.len(),
                next@ == self.next_states_spec(),
                forall|j: int| 0 <= j < i ==> next@[j] != target,
            decreases next.len() - i,
        {
            if next[i] == target {
                return true;
            }
            i = i + 1;
        }
        false
    }

    /// Validate a transition, returning an error when it is illegal.
    pub fn validate_transition(&self, target: GrantStatus) -> (r: Result<(), FsmError>)
        ensures
            r == (if self.can_transition_spec(target) {
                Ok::<(), FsmError>(())
            } else {
                Err::<(), FsmError>(FsmError::InvalidStateTransition)
            }),
    {
        if !self.can_transition_to(target) {
            return Err(FsmError::InvalidStateTransition);
        }
        Ok(())
    }
}

/// Universal self-transition law: for every idea state, a transition from the
/// state to itself is legal, so `validate_transition` on it returns `Ok`.
pub proof fn lemma_idea_self_transition_legal(s: IdeaStatus)
    ensures
        s.can_transition_spec(s),
{
}

/// Universal self-transition law: for every grant state, a transition from
/// the state to itself is legal, so `validate_transition` on it returns `Ok`.
pub proof fn lemma_grant_self_transition_legal(s: GrantStatus)
    ensures
        s.can_transition_spec(s),
{
}

/// `Archived` is terminal in the grant table: its row is empty, and no
/// transition out of it is legal except the universal self-transition.
pub proof fn lemma_grant_archived_terminal(target: GrantStatus)
    ensures
        GrantStatus::Archived.next_states_spec() == Seq::<GrantStatus>::empty(),
        target != GrantStatus::Archived ==> !GrantStatus::Archived.can_transition_spec(target),
{
}

} // verus!
