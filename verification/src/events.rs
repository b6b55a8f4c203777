//! The notifications that the registry hands back for its caller to publish.
//!
//! Every successful write returns the notifications that describe it; the
//! registry itself sends nothing.

use vstd::prelude::*;
use crate::record::PassportView;
use crate::types::Address;

verus! {

/// A passport was registered.
#[derive(Debug, PartialEq)]
pub struct PassportRegistered {
    pub token_id: u128,
    pub issuer: Address,
    pub dataset_uri: String,
    pub payload_hash: [u8; 32],
    pub dataset_type: String,
    pub version: u32,
    pub created_at: u32,
}

impl PassportRegistered {
    /// The notification carries the content of `record` as it was created.
    pub open spec fn announces(&self, record: PassportView) -> bool {
        &&& self.token_id == record.token_id
        &&& self.issuer == record.issuer
        &&& self.dataset_uri@ == record.dataset_uri
        &&& self.payload_hash == record.payload_hash
        &&& self.dataset_type@ == record.dataset_type
        &&& self.version == record.version
        &&& self.created_at == record.created_at
    }
}

/// The dataset of a passport was replaced.
#[derive(Debug, PartialEq)]
pub struct PassportUpdated {
    pub token_id: u128,
    pub dataset_uri: String,
    pub payload_hash: [u8; 32],
    pub dataset_type: String,
    pub version: u32,
    pub updated_at: u32,
}

impl PassportUpdated {
    /// The notification carries the content of `record` as it was updated.
    pub open spec fn announces(&self, record: PassportView) -> bool {
        &&& self.token_id == record.token_id
        &&& self.dataset_uri@ == record.dataset_uri
        &&& self.payload_hash == record.payload_hash
        &&& self.dataset_type@ == record.dataset_type
        &&& self.version == record.version
        &&& self.updated_at == record.updated_at
    }
}

/// A passport was revoked. The reason is carried here and stored nowhere.
#[derive(Debug, PartialEq)]
pub struct PassportRevoked {
    pub token_id: u128,
    pub issuer: Address,
    pub reason: Option<String>,
    pub revoked_at: u32,
}

/// A token changed hands. `from` is absent when the token was just minted.
#[derive(Clone, Copy, Debug, PartialEq, Eq)]
pub struct Transfer {
    pub from: Option<Address>,
    pub to: Option<Address>,
    pub token_id: u128,
}

/// `approved` may now transfer the token of `owner`.
#[derive(Clone, Copy, Debug, PartialEq, Eq)]
pub struct Approval {
    pub owner: Address,
    pub approved: Address,
    pub token_id: u128,
}

/// `owner` granted or withdrew a blanket approval for `operator`.
#[derive(Clone, Copy, Debug, PartialEq, Eq)]
pub struct ApprovalForAll {
    pub owner: Address,
    pub operator: Address,
    pub approved: bool,
}

/// What a successful registration hands back: the new token and the two
/// notifications of its creation.
#[derive(Debug, PartialEq)]
pub struct Registration {
    pub token_id: u128,
    pub registered: PassportRegistered,
    pub minted: Transfer,
}

} // verus!
