//! Quorum metadata for governance voting.
//!
//! On-chain: quorum requirements and the current progress towards them.
//! Optimisation and analytics over quorums happen in an off-chain service.

use vstd::prelude::*;

use crate::error::FsmError;

verus! {

/// Quorum calculation method.
#[derive(Clone, Copy, Debug, PartialEq, Eq, Structural)]
pub enum QuorumCalculationMethod {
    FixedPercentage,
    Dynamic,
    Weighted,
}

/// Quorum metadata (on-chain).
#[derive(Debug, Clone, PartialEq, Eq)]
pub struct QuorumMetadata {
    pub quorum_id: u64,
    pub proposal_id: Option<u64>,
    pub required_percentage: u8,
    pub calculation_method: QuorumCalculationMethod,
    pub current_percentage: u8,
    pub quorum_reached: bool,
    pub created_at: i64,
    pub updated_at: i64,
}

/// Initialise quorum metadata in place. The quorum id must be non-zero and
/// the required percentage at most 100; progress starts at zero with the
/// quorum not reached.
pub fn initialize_quorum_metadata(
    quorum: &mut QuorumMetadata,
    quorum_id: u64,
    proposal_id: Option<u64>,
    required_percentage: u8,
    calculation_method: QuorumCalculationMethod,
    current_time: i64,
) -> (r: Result<(), FsmError>)
    ensures
        (quorum_id != 0 && required_percentage <= 100) ==> (r is Ok && *final(quorum) == (
        QuorumMetadata {
            quorum_id,
            proposal_id,
            required_percentage,
            calculation_method,
            current_percentage: 0u8,
            quorum_reached: false,
            created_at: current_time,
            updated_at: current_time,
        })),
        (quorum_id == 0 || required_percentage > 100) ==> (r == Err::<(), FsmError>(
            FsmError::InvalidInput,
        ) && *final(quorum) == *old(quorum)),
{
    if !(quorum_id > 0) {
        return Err(FsmError::InvalidInput);
    }
    if !(required_percentage <= 100) {
        return Err(FsmError::InvalidInput);
    }
    quorum.quorum_id = quorum_id;
    quorum.proposal_id = proposal_id;
    quorum.required_percentage = required_percentage;
    quorum.calculation_method = calculation_method;
    quorum.current_percentage = 0;
    quorum.quorum_reached = false;
    quorum.created_at = current_time;
    quorum.updated_at = current_time;
    Ok(())
}

/// Update the current quorum percentage; the quorum is reached exactly when
/// the new percentage meets the required one.
pub fn update_quorum_percentage(
    quorum: &mut QuorumMetadata,
    new_percentage: u8,
    current_time: i64,
) -> (r: Result<(), FsmError>)
    ensures
        new_percentage <= 100 ==> (r is Ok && *final(quorum) == (QuorumMetadata {
            current_percentage: new_percentage,
            quorum_reached: new_percentage >= old(quorum).required_percentage,
            updated_at: current_time,
            ..*old(quorum)
        })),
        new_percentage > 100 ==> (r == Err::<(), FsmError>(FsmError::InvalidInput) && *final(quorum) == *old(quorum)),
{
    if !(new_percentage <= 100) {
        return Err(FsmError::InvalidInput);
    }
    quorum.current_percentage = new_percentage;
    quorum.quorum_reached = new_percentage >= quorum.required_percentage;
    quorum.updated_at = current_time;
    Ok(())
}

/// Placeholder for the off-chain quorum optimiser, which always suggests a
/// fifty percent quorum here.
pub fn calculate_optimal_quorum(_proposal_id: u64) -> (r: u8)
    ensures
        r == 50,
{
    50
}

/// Placeholder for the off-chain quorum trend analyser, which reports no
/// insights here.
pub fn analyze_quorum_trends() -> (r: Vec<String>)
    ensures
        r@ == Seq::<String>::empty(),
{
    Vec::new()
}

} // verus!
