//! Proposal amendments: edits proposed against a proposal during its draft
//! phase.

use vstd::prelude::*;

use crate::error::FsmError;
use crate::text::byte_len;

verus! {

/// Proposal amendment account structure, generic over the key type that
/// identifies an author.
#[derive(Debug, Clone, PartialEq, Eq)]
pub struct ProposalAmendment<P> {
    pub amendment_id: u64,
    pub proposal_id: u64,
    pub author: P,
    pub content: String,
    pub created_at: i64,
}

impl<P> ProposalAmendment<P> {
    /// Create a new proposal amendment, stamped with time zero.
    pub fn new(amendment_id: u64, proposal_id: u64, author: P, content: String) -> (r: Result<
        ProposalAmendment<P>,
        FsmError,
    >)
        ensures
            (content@.len() > 0 && byte_len(content@) <= 2000) ==> (r matches Ok(a)
                && a.amendment_id == amendment_id && a.proposal_id == proposal_id && a.author
                == author && a.content == content && a.created_at == 0),
            !(content@.len() > 0 && byte_len(content@) <= 2000) ==> r == Err::<
                ProposalAmendment<P>,
                FsmError,
            >(FsmError::InvalidInput),
    {
        Self::new_with_time(amendment_id, proposal_id, author, content, 0)
    }

    /// Create a new proposal amendment with the given creation time. The
    /// content must be non-empty and at most 2000 bytes long.
    pub fn new_with_time(
        amendment_id: u64,
        proposal_id: u64,
        author: P,
        content: String,
        current_time: i64,
    ) -> (r: Result<ProposalAmendment<P>, FsmError>)
        ensures
            (content@.len() > 0 && byte_len(content@) <= 2000) ==> (r matches Ok(a)
                && a.amendment_id == amendment_id && a.proposal_id == proposal_id && a.author
                == author && a.content == content && a.created_at == current_time),
            !(content@.len() > 0 && byte_len(content@) <= 2000) ==> r == Err::<
                ProposalAmendment<P>,
                FsmError,
            >(FsmError::InvalidInput),
    {
        if content.as_str().is_empty() {
            return Err(FsmError::InvalidInput);
        }
        if content.as_str().as_bytes().len() > 2000 {
            return Err(FsmError::InvalidInput);
        }
        Ok(Self { amendment_id, proposal_id, author, content, created_at: current_time })
    }
}

} // verus!
