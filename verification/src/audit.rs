//! Audit trail for grant state transitions.
//!
//! Records every state change for grants and allows verification of the
//! recorded sequence against the fixed grant transition table.

use vstd::prelude::*;

use crate::enums::GrantStatus;
use crate::error::FsmError;

verus! {

/// Immutable audit entry representing one transition.
#[derive(Clone, Debug, PartialEq, Eq)]
pub struct AuditEntry {
    pub grant_id: u64,
    pub actor: [u8; 32],
    pub from_state: GrantStatus,
    pub to_state: GrantStatus,
    pub action: String,
    pub timestamp: i64,
    pub metadata: Option<String>,
}

impl AuditEntry {
    /// Build a new entry.
    pub fn new(
        grant_id: u64,
        actor: [u8; 32],
        from_state: GrantStatus,
        to_state: GrantStatus,
        action: &'static str,
        timestamp: i64,
        metadata: Option<String>,
    ) -> (e: AuditEntry)
        ensures
            e.grant_id == grant_id,
            e.actor == actor,
            e.from_state == from_state,
            e.to_state == to_state,
            e.action@ == action@,
            e.timestamp == timestamp,
            e.metadata == metadata,
    {
        Self {
            grant_id,
            actor,
            from_state,
            to_state,
            action: action.to_owned(),
            timestamp,
            metadata,
        }
    }
}

/// Chain continuity over a recorded sequence: whenever two adjacent entries
/// concern the same grant, the first entry's destination state is the second
/// entry's origin state.
pub open spec fn chain_consistent(entries: Seq<AuditEntry>) -> bool {
    forall|i: int|
        0 <= i && i + 1 < entries.len() && entries[i].grant_id == entries[i + 1].grant_id
            ==> entries[i].to_state == entries[i + 1].from_state
}

/// In-memory, append-only audit trail.
#[derive(Default, Clone, Debug)]
pub struct AuditTrail {
    entries: Vec<AuditEntry>,
}

impl View for AuditTrail {
    type V = Seq<AuditEntry>;

    /// A trail is modelled as the sequence of its entries, oldest first.
    closed spec fn view(&self) -> Seq<AuditEntry> {
        self.entries@
    }
}

impl AuditTrail {
    /// Create an empty trail.
    pub fn new() -> (t: AuditTrail)
        ensures
            t@ == Seq::<AuditEntry>::empty(),
    {
        Self { entries: Vec::new() }
    }

    /// Append an audit entry after verifying the transition is permitted;
    /// an entry with an illegal transition is discarded and the trail is
    /// left unchanged.
    pub fn record(&mut self, entry: AuditEntry) -> (r: Result<(), FsmError>)
        ensures
            entry.from_state.can_transition_spec(entry.to_state) ==> (r is Ok && final(self)@
                == old(self)@.push(entry)),
            !entry.from_state.can_transition_spec(entry.to_state) ==> (r == Err::<(), FsmError>(
                FsmError::InvalidStateTransition,
            ) && final(self)@ == old(self)@),
    {
        match entry.from_state.validate_transition(entry.to_state) {
            Ok(_) => {
                self.entries.push(entry);
                Ok(())
            },
            Err(_) => Err(FsmError::InvalidStateTransition),
        }
    }

    /// Verify that the recorded history is chain-consistent: adjacent
    /// entries for the same grant must join up state-to-state. Adjacent
    /// entries for different grants are not compared.
    pub fn verify(&self) -> (r: Result<(), FsmError>)
        ensures
            r == (if chain_consistent(self@) {
                Ok::<(), FsmError>(())
            } else {
                Err::<(), FsmError>(FsmError::InvalidStateTransition)
            }),
    {
        if self.entries.len() == 0 {
            return Ok(());
        }
        let mut i: usize = 0;
        while i < self.entries.len() - 1
            invariant
                self.entries.len() > 0,
                i <= self.entries.len() - 1,
                self.entries@ == self@,
                forall|j: int|
                    0 <= j && j + 1 <= i && self@[j].grant_id == self@[j + 1].grant_id
                        ==> self@[j].to_state == self@[j + 1].from_state,
            decreases self.entries.len() - i,
        {
            let first = &self.entries[i];
            let second = &self.entries[i + 1];
            if first.grant_id == second.grant_id && first.to_state != second.from_state {
                return Err(FsmError::InvalidStateTransition);
            }
            i = i + 1;
        }
        Ok(())
    }

    /// The recorded entries, in insertion order, for export or inspection.
    pub fn entries(&self) -> (r: &[AuditEntry])
        ensures
            r@ == self@,
    {
        self.entries.as_slice()
    }
}

} // verus!
