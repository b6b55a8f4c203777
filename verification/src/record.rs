//! Passport records and ledger entries, and the steps of a record's life.

use vstd::prelude::*;
use crate::events::{PassportRegistered, PassportUpdated};
use crate::types::{Address, CallContext, Granularity, PassportStatus};

verus! {

/// The current anchor record of a passport token.
#[derive(Debug, PartialEq)]
pub struct PassportRecord {
    pub token_id: u128,
    /// Issuer authority (immutable). Only the issuer can update or revoke.
    pub issuer: Address,
    pub dataset_uri: String,
    /// SHA-256 hash of the dataset bytes.
    pub payload_hash: [u8; 32],
    pub dataset_type: String,
    pub version: u32,
    pub status: PassportStatus,
    pub created_at: u32,
    pub updated_at: u32,
    pub granularity: Granularity,
    pub subject_id_hash: Option<[u8; 32]>,
}

/// A passport record as a mathematical value.
pub struct PassportView {
    pub token_id: u128,
    pub issuer: Address,
    pub dataset_uri: Seq<char>,
    pub payload_hash: [u8; 32],
    pub dataset_type: Seq<char>,
    pub version: u32,
    pub status: PassportStatus,
    pub created_at: u32,
    pub updated_at: u32,
    pub granularity: Granularity,
    pub subject_id_hash: Option<[u8; 32]>,
}

impl View for PassportRecord {
    type V = PassportView;

    open spec fn view(&self) -> PassportView {
        PassportView {
            token_id: self.token_id,
            issuer: self.issuer,
            dataset_uri: self.dataset_uri@,
            payload_hash: self.payload_hash,
            dataset_type: self.dataset_type@,
            version: self.version,
            status: self.status,
            created_at: self.created_at,
            updated_at: self.updated_at,
            granularity: self.granularity,
            subject_id_hash: self.subject_id_hash,
        }
    }
}

impl Clone for PassportRecord {
    fn clone(&self) -> (copy: Self)
        ensures
            copy == *self,
    {
        PassportRecord {
            token_id: self.token_id,
            issuer: self.issuer,
            dataset_uri: self.dataset_uri.clone(),
            payload_hash: self.payload_hash,
            dataset_type: self.dataset_type.clone(),
            version: self.version,
            status: self.status,
            created_at: self.created_at,
            updated_at: self.updated_at,
            granularity: self.granularity,
            subject_id_hash: self.subject_id_hash,
        }
    }
}

/// One entry of the version ledger: the content of a passport as one
/// version wrote it. Entries are appended and never changed.
#[derive(Debug, PartialEq)]
pub struct VersionHistory {
    /// Version number (1-indexed).
    pub version: u32,
    pub dataset_uri: String,
    pub payload_hash: [u8; 32],
    pub dataset_type: String,
    /// Counter value of the call that wrote this version.
    pub updated_at: u32,
    /// Who wrote this version: the issuer, for version 1.
    pub updated_by: Address,
}

/// A version ledger entry as a mathematical value.
pub struct VersionView {
    pub version: u32,
    pub dataset_uri: Seq<char>,
    pub payload_hash: [u8; 32],
    pub dataset_type: Seq<char>,
    pub updated_at: u32,
    pub updated_by: Address,
}

impl View for VersionHistory {
    type V = VersionView;

    open spec fn view(&self) -> VersionView {
        VersionView {
            version: self.version,
            dataset_uri: self.dataset_uri@,
            payload_hash: self.payload_hash,
            dataset_type: self.dataset_type@,
            updated_at: self.updated_at,
            updated_by: self.updated_by,
        }
    }
}

impl Clone for VersionHistory {
    fn clone(&self) -> (copy: Self)
        ensures
            copy == *self,
    {
        VersionHistory {
            version: self.version,
            dataset_uri: self.dataset_uri.clone(),
            payload_hash: self.payload_hash,
            dataset_type: self.dataset_type.clone(),
            updated_at: self.updated_at,
            updated_by: self.updated_by,
        }
    }
}

impl PassportView {
    /// The record of a passport that `ctx.caller` registers as `token_id`:
    /// version 1, active, created and updated at the time of the call.
    pub open spec fn created(
        token_id: u128,
        ctx: CallContext,
        dataset_uri: Seq<char>,
        payload_hash: [u8; 32],
        dataset_type: Seq<char>,
        granularity: Granularity,
        subject_id_hash: Option<[u8; 32]>,
    ) -> PassportView {
        PassportView {
            token_id,
            issuer: ctx.caller,
            dataset_uri,
            payload_hash,
            dataset_type,
            version: 1,
            status: PassportStatus::Active,
            created_at: ctx.block_number,
            updated_at: ctx.block_number,
            granularity,
            subject_id_hash,
        }
    }

    /// The record as an update by `ctx` with the given content leaves it:
    /// content and subject hash replaced, the version one higher.
    pub open spec fn updated(
        self,
        ctx: CallContext,
        dataset_uri: Seq<char>,
        payload_hash: [u8; 32],
        dataset_type: Seq<char>,
        subject_id_hash: Option<[u8; 32]>,
    ) -> PassportView {
        PassportView {
            dataset_uri,
            payload_hash,
            dataset_type,
            subject_id_hash,
            version: (self.version + 1) as u32,
            updated_at: ctx.block_number,
            ..self
        }
    }

    /// The record as a revocation by `ctx` leaves it.
    pub open spec fn revoked(self, ctx: CallContext) -> PassportView {
        PassportView { status: PassportStatus::Revoked, updated_at: ctx.block_number, ..self }
    }

    /// The ledger entry that describes the record's current version, as
    /// written by `author`.
    pub open spec fn ledger_entry(self, author: Address) -> VersionView {
        VersionView {
            version: self.version,
            dataset_uri: self.dataset_uri,
            payload_hash: self.payload_hash,
            dataset_type: self.dataset_type,
            updated_at: self.updated_at,
            updated_by: author,
        }
    }
}

impl PassportRecord {
    /// The record of a passport that `ctx.caller` registers as `token_id`.
    pub fn create(
        token_id: u128,
        ctx: CallContext,
        dataset_uri: String,
        payload_hash: [u8; 32],
        dataset_type: String,
        granularity: Granularity,
        subject_id_hash: Option<[u8; 32]>,
    ) -> (record: Self)
        ensures
            record@ == PassportView::created(
                token_id,
                ctx,
                dataset_uri@,
                payload_hash,
                dataset_type@,
                granularity,
                subject_id_hash,
            ),
    {
        PassportRecord {
            token_id,
            issuer: ctx.caller,
            dataset_uri,
            payload_hash,
            dataset_type,
            version: 1,
            status: PassportStatus::Active,
            created_at: ctx.block_number,
            updated_at: ctx.block_number,
            granularity,
            subject_id_hash,
        }
    }

    /// Replaces content and subject hash, and raises the version by one.
    /// Issuer and granularity are not among the inputs: they never change.
    pub fn update(
        &mut self,
        ctx: CallContext,
        dataset_uri: String,
        payload_hash: [u8; 32],
        dataset_type: String,
        subject_id_hash: Option<[u8; 32]>,
    )
        requires
            old(self).version < u32::MAX,
        ensures
            final(self)@ == old(self)@.updated(
                ctx,
                dataset_uri@,
                payload_hash,
                dataset_type@,
                subject_id_hash,
            ),
    {
        self.dataset_uri = dataset_uri;
        self.payload_hash = payload_hash;
        self.dataset_type = dataset_type;
        self.subject_id_hash = subject_id_hash;
        self.version = self.version + 1;
        self.updated_at = ctx.block_number;
    }

    /// Marks the record as revoked.
    pub fn revoke(&mut self, ctx: CallContext)
        ensures
            final(self)@ == old(self)@.revoked(ctx),
    {
        self.status = PassportStatus::Revoked;
        self.updated_at = ctx.block_number;
    }

    /// The ledger entry for the record's current version, written by `author`.
    pub fn ledger_entry(&self, author: Address) -> (entry: VersionHistory)
        ensures
            entry@ == self@.ledger_entry(author),
    {
        VersionHistory {
            version: self.version,
            dataset_uri: self.dataset_uri.clone(),
            payload_hash: self.payload_hash,
            dataset_type: self.dataset_type.clone(),
            updated_at: self.updated_at,
            updated_by: author,
        }
    }

    /// The notification of the record's registration.
    pub fn registered_notice(&self) -> (notice: PassportRegistered)
        ensures
            notice.announces(self@),
    {
        PassportRegistered {
            token_id: self.token_id,
            issuer: self.issuer,
            dataset_uri: self.dataset_uri.clone(),
            payload_hash: self.payload_hash,
            dataset_type: self.dataset_type.clone(),
            version: self.version,
            created_at: self.created_at,
        }
    }

    /// The notification of the record's latest update.
    pub fn updated_notice(&self) -> (notice: PassportUpdated)
        ensures
            notice.announces(self@),
    {
        PassportUpdated {
            token_id: self.token_id,
            dataset_uri: self.dataset_uri.clone(),
            payload_hash: self.payload_hash,
            dataset_type: self.dataset_type.clone(),
            version: self.version,
            updated_at: self.updated_at,
        }
    }
}

} // verus!
