//! Security excellence metrics metadata.
//!
//! On-chain: metadata for security excellence scores. The metric
//! calculation happens in an off-chain service.

use vstd::prelude::*;

use crate::error::FsmError;

verus! {

/// Security excellence score metadata (on-chain).
#[derive(Debug, Clone, PartialEq, Eq)]
pub struct SecurityExcellenceMetadata {
    pub score_id: u64,
    pub overall_score: u8,
    pub created_at: i64,
    pub updated_at: i64,
    pub score_data_hash: [u8; 32],
}

/// Initialise a score record in place. The score id must be non-zero and
/// the overall score at most 100.
pub fn initialize_score(
    score: &mut SecurityExcellenceMetadata,
    score_id: u64,
    overall_score: u8,
    score_data_hash: [u8; 32],
    current_time: i64,
) -> (r: Result<(), FsmError>)
    ensures
        (score_id != 0 && overall_score <= 100) ==> (r is Ok && *final(score) == (
        SecurityExcellenceMetadata {
            score_id,
            overall_score,
            created_at: current_time,
            updated_at: current_time,
            score_data_hash,
        })),
        (score_id == 0 || overall_score > 100) ==> (r == Err::<(), FsmError>(
            FsmError::InvalidInput,
        ) && *final(score) == *old(score)),
{
    if !(score_id > 0) {
        return Err(FsmError::InvalidInput);
    }
    if !(overall_score <= 100) {
        return Err(FsmError::InvalidInput);
    }
    score.score_id = score_id;
    score.overall_score = overall_score;
    score.created_at = current_time;
    score.updated_at = current_time;
    score.score_data_hash = score_data_hash;
    Ok(())
}

/// Placeholder for the off-chain score calculator, which reports a zero
/// score here.
pub fn calculate_score() -> (r: u8)
    ensures
        r == 0,
{
    0
}

} // verus!
