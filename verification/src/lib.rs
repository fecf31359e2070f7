//! Authorship of a round: who built it, claimed once per round through an
//! inherent and admitted by the configured policies.
//!
//! The claim is a statement, not a proof of identity: nothing here
//! authenticates the author.

pub mod error;
pub mod identity;
pub mod inherent_data;
pub mod inherent_error;
pub mod laws;
pub mod module;
pub mod origin;
pub mod policy;
pub mod provider;
pub mod state;

pub use error::ClaimError;
pub use identity::{stored_identity, Identity};
pub use inherent_data::{
    inherent_entries, is_author_identifier, u64_entry, InherentDataError, InherentIdentifier,
    INHERENT_IDENTIFIER,
};
pub use inherent_error::{debug_text, scale_string, InherentError, OTHER_TAG};
pub use module::{Call, Config, Module};
pub use origin::{ensure_none, BadOrigin, Origin};
pub use policy::{CanAuthor, EventHandler};
pub use provider::InherentDataProvider;
pub use state::{records, ClaimRecord, ConsensusEngineId, Record, State, ENGINE_ID};
