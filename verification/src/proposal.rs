//! Proposal management: the proposal account structure and its lifecycle,
//! amendments, analytics metadata, templates, and treasury operation data.

pub mod amendment;
pub mod analytics;
pub mod lifecycle;
pub mod template;
pub mod treasury;
pub mod types;

pub use amendment::ProposalAmendment;
pub use analytics::{
    initialize_proposal_analytics, ProposalAnalyticsMetadata, ProposalAnalyticsStatus,
    ProposalAnalyticsType,
};
pub use template::{ProposalTemplate, TemplateField, TemplateFieldType};
pub use treasury::{TreasuryOperationData, TreasuryProposalType};
pub use types::{Proposal, ProposalStatus};
