//! A deterministic registry of dataset passports.
//!
//! Each passport anchors an off-chain dataset (a reference, a content hash
//! and a content type) to a token. The issuer of a passport keeps the
//! authority to update and revoke it; the token itself has a holder who may
//! transfer it or approve others to do so.
//!
//! - [`types`], [`record`], [`events`]: the values that go in and out.
//! - [`rules`]: validation and authorisation, on plain values.
//! - [`table`]: the keyed store.
//! - [`contract`]: the registry and its operations.
//! - [`state`], [`consistency`], [`trace`], [`laws`]: the registry as a
//!   mathematical value, its invariant, sequences of calls, and what is
//!   proved of them.

pub mod consistency;
pub mod contract;
pub mod events;
pub mod laws;
pub mod record;
pub mod rules;
pub mod state;
pub mod table;
pub mod trace;
pub mod types;

pub use contract::DppContractV2;
pub use events::{
    Approval, ApprovalForAll, PassportRegistered, PassportRevoked, PassportUpdated, Registration,
    Transfer,
};
pub use record::{PassportRecord, VersionHistory};
pub use types::{Address, CallContext, Error, Granularity, PassportStatus};
