//! A finite-state-machine governance engine: fixed transition tables for
//! idea and grant lifecycles, a data-driven state-machine definition
//! validator, and an audit trail that checks recorded transition histories.

pub mod audit;
pub mod definition;
pub mod enums;
pub mod error;
pub mod fsm;
pub mod governance;
pub mod governance_params;
pub mod grant;
pub mod proposal;
pub mod text;

pub use audit::{AuditEntry, AuditTrail};
pub use definition::{
    validate_strict, FsmDefaults, FsmDefinition, FsmInvariant, FsmTransition,
    FsmTransitionMetadata, FsmTransitionRef,
};
pub use enums::{GrantStatus, IdeaStatus};
pub use error::FsmError;
pub use grant::{Grant, GrantDisbursementType, GrantVote, VoteType};
