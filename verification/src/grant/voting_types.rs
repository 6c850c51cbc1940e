//! Vote outcome variants for grant voting.

use vstd::prelude::*;

verus! {

/// The outcome a voter selects.
#[derive(Debug, Clone, PartialEq, Eq, Structural)]
pub enum VoteType {
    Approve,
    Reject,
    Abstain,
}

} // verus!
