//! The registry itself: its stores, and the operations on them.
//!
//! The registry is held in memory. A write takes the context of the call
//! (who calls, and when) as its first argument, consults the rules before
//! it changes anything, and hands back the notifications of what it did:
//! a call that fails leaves the registry as it was.

use vstd::prelude::*;
use crate::consistency::{
    lemma_approval_for_all_set_valid, lemma_approved_valid, lemma_initial_valid,
    lemma_registered_valid, lemma_revoked_valid, lemma_transferred_valid, lemma_updated_valid,
};
use crate::events::{
    Approval, ApprovalForAll, PassportRevoked, PassportUpdated, Registration, Transfer,
};
use crate::record::{PassportRecord, VersionHistory};
use crate::rules::{
    check_approve, check_content, check_operator, check_revoke, check_transfer, check_update,
    count_after_gain, count_after_loss,
};
use crate::state::RegistryState;
use crate::table::Table;
use crate::trace::{Call, Invocation};
use crate::types::{Address, CallContext, Error, Granularity};

verus! {

/// The passport registry.
///
/// Its stores are consistent at all times: no caller has to ask for that,
/// and none can undo it.
pub struct DppContractV2 {
    stores: Stores,
}

/// The persisted state: seven keyed stores and the token counter.
struct Stores {
    passports: Table<u128, PassportRecord>,
    next_token_id: u128,
    version_history: Table<(u128, u32), VersionHistory>,
    // subject_id_hash -> token_id (best-effort reverse lookup)
    subject_id_to_token: Table<[u8; 32], u128>,
    token_owner: Table<u128, Address>,
    token_approvals: Table<u128, Address>,
    owned_tokens_count: Table<Address, u128>,
    operator_approvals: Table<(Address, Address), ()>,
}

impl View for Stores {
    type V = RegistryState;

    closed spec fn view(&self) -> RegistryState {
        RegistryState {
            passports: self.passports@.map_values(|r: PassportRecord| r@),
            next_token_id: self.next_token_id,
            version_history: self.version_history@.map_values(|h: VersionHistory| h@),
            subject_id_to_token: self.subject_id_to_token@,
            token_owner: self.token_owner@,
            token_approvals: self.token_approvals@,
            owned_tokens_count: self.owned_tokens_count@,
            operator_approvals: self.operator_approvals@.dom(),
        }
    }
}

impl View for DppContractV2 {
    type V = RegistryState;

    closed spec fn view(&self) -> RegistryState {
        self.stores@
    }
}

impl Stores {
    /// Stores that hold nothing.
    fn new() -> (stores: Self)
        ensures
            stores@ == RegistryState::initial(),
            stores@.valid(),
    {
        let stores = Stores {
            passports: Table::new(),
            next_token_id: 0,
            version_history: Table::new(),
            subject_id_to_token: Table::new(),
            token_owner: Table::new(),
            token_approvals: Table::new(),
            owned_tokens_count: Table::new(),
            operator_approvals: Table::new(),
        };
        proof {
            let s = stores@;
            assert(s.passports =~= Map::empty());
            assert(s.version_history =~= Map::empty());
            lemma_initial_valid();
        }
        stores
    }

    // Internal ownership helpers

    /// Withdraws the approval of a token, if it has one.
    fn clear_approval(&mut self, token_id: u128)
        ensures
            final(self)@ == old(self)@.approval_cleared(token_id),
    {
        self.token_approvals.remove(&token_id);
    }

    /// Takes a token from `from`: the token loses its holder, and `from`
    /// counts one token less. Nothing changes where the token has no
    /// holder, or `from` counts none.
    fn remove_token_from(&mut self, from: &Address, token_id: u128) -> (done: Result<(), Error>)
        ensures
            match done {
                Ok(()) => old(self)@.remove_token_error(*from, token_id) is None && final(self)@
                    == old(self)@.token_removed(*from, token_id),
                Err(e) => old(self)@.remove_token_error(*from, token_id) == Some(e) && final(self)@
                    == old(self)@,
            },
    {
        if !self.token_owner.contains(&token_id) {
            return Err(Error::TokenNotFound);
        }
        let held: u128 = match self.owned_tokens_count.get(from) {
            Some(count) => *count,
            None => 0,
        };
        let count = count_after_loss(held)?;
        self.owned_tokens_count.insert(*from, count);
        self.token_owner.remove(&token_id);
        Ok(())
    }

    /// Gives a token without holder to `to`, which counts one token more.
    /// Nothing changes where the token has a holder, or the count of `to`
    /// is at its limit.
    fn add_token_to(&mut self, to: &Address, token_id: u128) -> (done: Result<(), Error>)
        ensures
            match done {
                Ok(()) => old(self)@.add_token_error(*to, token_id) is None && final(self)@ == old(
                    self,
                )@.token_added(*to, token_id),
                Err(e) => old(self)@.add_token_error(*to, token_id) == Some(e) && final(self)@
                    == old(self)@,
            },
    {
        if self.token_owner.contains(&token_id) {
            return Err(Error::InvalidInput);
        }
        let held: u128 = match self.owned_tokens_count.get(to) {
            Some(count) => *count,
            None => 0,
        };
        let count = count_after_gain(held)?;
        self.owned_tokens_count.insert(*to, count);
        self.token_owner.insert(token_id, *to);
        Ok(())
    }
}

impl DppContractV2 {
    /// The registry's invariant: its stores are consistent.
    #[verifier::type_invariant]
    spec fn consistent(&self) -> bool {
        self.stores@.valid()
    }

    /// Constructor.
    pub fn new() -> (contract: Self)
        ensures
            contract@ == RegistryState::initial(),
            contract@.valid(),
    {
        DppContractV2 { stores: Stores::new() }
    }

    /// Takes the stores out for a write, and leaves empty ones in their place.
    fn take_stores(&mut self) -> (stores: Stores)
        ensures
            stores@ == old(self)@,
            stores@.valid(),
    {
        proof {
            use_type_invariant(&*self);
        }
        let mut stores = Stores::new();
        core::mem::swap(&mut stores, &mut self.stores);
        stores
    }

    /// Puts the stores back once the write is done.
    fn put_stores(&mut self, stores: Stores)
        requires
            stores@.valid(),
        ensures
            final(self)@ == stores@,
    {
        self.stores = stores;
    }

    /// Register a new passport anchor.
    ///
    /// The caller becomes the issuer and the first holder of the new token,
    /// which gets the next id. An empty dataset reference or content type is
    /// refused with `InvalidInput`, and nothing changes.
    pub fn register_passport(
        &mut self,
        ctx: CallContext,
        dataset_uri: String,
        payload_hash: [u8; 32],
        dataset_type: String,
        granularity: Granularity,
        subject_id_hash: Option<[u8; 32]>,
    ) -> (outcome: Result<Registration, Error>)
        ensures
            final(self)@.valid(),
            final(self)@ == old(self)@.after(
                Invocation {
                    ctx,
                    call: Call::Register {
                        dataset_uri: dataset_uri@,
                        payload_hash,
                        dataset_type: dataset_type@,
                        granularity,
                        subject_id_hash,
                    },
                },
            ),
            match outcome {
                Ok(receipt) => {
                    &&& RegistryState::register_error(dataset_uri@, dataset_type@) is None
                    &&& final(self)@ == old(self)@.registered(
                        ctx,
                        dataset_uri@,
                        payload_hash,
                        dataset_type@,
                        granularity,
                        subject_id_hash,
                    )
                    &&& receipt.token_id == old(self)@.next_token_id
                    &&& receipt.registered.announces(final(self)@.passports[receipt.token_id])
                    &&& receipt.minted == (Transfer {
                        from: None,
                        to: Some(ctx.caller),
                        token_id: receipt.token_id,
                    })
                },
                Err(e) => {
                    &&& RegistryState::register_error(dataset_uri@, dataset_type@) == Some(e)
                    &&& final(self)@ == old(self)@
                },
            },
    {
        proof {
            use_type_invariant(&*self);
        }
        let caller = ctx.caller;
        let token_id = self.stores.next_token_id;

        check_content(dataset_uri.as_str(), dataset_type.as_str())?;
        proof {
            // There are as many tokens as holders' entries, and a store
            // holds fewer than the counter can count.
            self.stores.token_owner.lemma_size();
            lemma_registered_valid(
                self@,
                ctx,
                dataset_uri@,
                payload_hash,
                dataset_type@,
                granularity,
                subject_id_hash,
            );
        }

        let record = PassportRecord::create(
            token_id,
            ctx,
            dataset_uri,
            payload_hash,
            dataset_type,
            granularity,
            subject_id_hash,
        );
        let history_entry = record.ledger_entry(caller);
        let registered = record.registered_notice();

        let mut stores = self.take_stores();

        stores.passports.insert(token_id, record);

        stores.add_token_to(&caller, token_id)?;

        stores.next_token_id = token_id + 1;

        if let Some(subject_hash) = subject_id_hash {
            stores.subject_id_to_token.insert(subject_hash, token_id);
        }

        stores.version_history.insert((token_id, 1), history_entry);

        proof {
            let expected = old(self)@.registered(
                ctx,
                dataset_uri@,
                payload_hash,
                dataset_type@,
                granularity,
                subject_id_hash,
            );
            assert(stores@.passports =~= expected.passports);
            assert(stores@.version_history =~= expected.version_history);
        }
        self.put_stores(stores);

        Ok(
            Registration {
                token_id,
                registered,
                minted: Transfer { from: None, to: Some(caller), token_id },
            },
        )
    }

    /// Get the current anchor record.
    pub fn get_passport(&self, token_id: u128) -> (record: Option<PassportRecord>)
        ensures
            match record {
                Some(r) => self@.get_passport(token_id) == Some(r@),
                None => self@.get_passport(token_id) is None,
            },
    {
        match self.stores.passports.get(&token_id) {
            Some(record) => Some(record.clone()),
            None => None,
        }
    }

    /// Update the anchor (issuer-only). Increments `version`.
    ///
    /// The content and the subject hash are replaced, and the new version is
    /// appended to the ledger. Granularity and issuer never change.
    pub fn update_dataset(
        &mut self,
        ctx: CallContext,
        token_id: u128,
        dataset_uri: String,
        payload_hash: [u8; 32],
        dataset_type: String,
        subject_id_hash: Option<[u8; 32]>,
    ) -> (outcome: Result<PassportUpdated, Error>)
        requires
            old(self)@.update_error(ctx.caller, token_id, dataset_uri@, dataset_type@) is None
                ==> old(self)@.passports[token_id].version < u32::MAX,
        ensures
            final(self)@.valid(),
            final(self)@ == old(self)@.after(
                Invocation {
                    ctx,
                    call: Call::Update {
                        token_id,
                        dataset_uri: dataset_uri@,
                        payload_hash,
                        dataset_type: dataset_type@,
                        subject_id_hash,
                    },
                },
            ),
            match outcome {
                Ok(notice) => {
                    &&& old(self)@.update_error(ctx.caller, token_id, dataset_uri@, dataset_type@)
                        is None
                    &&& final(self)@ == old(self)@.updated(
                        ctx,
                        token_id,
                        dataset_uri@,
                        payload_hash,
                        dataset_type@,
                        subject_id_hash,
                    )
                    &&& notice.announces(final(self)@.passports[token_id])
                },
                Err(e) => {
                    &&& old(self)@.update_error(ctx.caller, token_id, dataset_uri@, dataset_type@)
                        == Some(e)
                    &&& final(self)@ == old(self)@
                },
            },
    {
        proof {
            use_type_invariant(&*self);
        }
        let caller = ctx.caller;
        let found = self.stores.passports.get(&token_id);

        check_update(found, caller, dataset_uri.as_str(), dataset_type.as_str())?;
        proof {
            lemma_updated_valid(
                self@,
                ctx,
                token_id,
                dataset_uri@,
                payload_hash,
                dataset_type@,
                subject_id_hash,
            );
        }

        // Prepare new version
        let mut record = found.unwrap().clone();
        record.update(ctx, dataset_uri, payload_hash, dataset_type, subject_id_hash);
        let new_version = record.version;
        let history_entry = record.ledger_entry(caller);
        let notice = record.updated_notice();

        let mut stores = self.take_stores();

        // Add or overwrite the reverse lookup of the new subject hash. The
        // entry of a hash that the record no longer has stays as it is.
        if let Some(new_hash) = subject_id_hash {
            stores.subject_id_to_token.insert(new_hash, token_id);
        }
        // Store updated record

        stores.passports.insert(token_id, record);

        // Append-only version history.
        stores.version_history.insert((token_id, new_version), history_entry);

        proof {
            let expected = old(self)@.updated(
                ctx,
                token_id,
                dataset_uri@,
                payload_hash,
                dataset_type@,
                subject_id_hash,
            );
            assert(stores@.passports =~= expected.passports);
            assert(stores@.version_history =~= expected.version_history);
        }
        self.put_stores(stores);

        Ok(notice)
    }

    /// Revoke a passport (issuer-only).
    ///
    /// The reason goes into the notification and is stored nowhere.
    pub fn revoke_passport(&mut self, ctx: CallContext, token_id: u128, reason: Option<String>) -> (outcome:
        Result<PassportRevoked, Error>)
        ensures
            final(self)@.valid(),
            final(self)@ == old(self)@.after(Invocation { ctx, call: Call::Revoke { token_id } }),
            match outcome {
                Ok(notice) => {
                    &&& old(self)@.revoke_error(ctx.caller, token_id) is None
                    &&& final(self)@ == old(self)@.revoked(ctx, token_id)
                    &&& notice == (PassportRevoked {
                        token_id,
                        issuer: ctx.caller,
                        reason,
                        revoked_at: ctx.block_number,
                    })
                },
                Err(e) => {
                    &&& old(self)@.revoke_error(ctx.caller, token_id) == Some(e)
                    &&& final(self)@ == old(self)@
                },
            },
    {
        proof {
            use_type_invariant(&*self);
        }
        let caller = ctx.caller;
        let found = self.stores.passports.get(&token_id);

        check_revoke(found, caller)?;
        proof {
            lemma_revoked_valid(self@, ctx, token_id);
        }

        // Update status
        let mut record = found.unwrap().clone();
        record.revoke(ctx);

        // Store
        let mut stores = self.take_stores();
        stores.passports.insert(token_id, record);
        proof {
            let expected = old(self)@.revoked(ctx, token_id);
            assert(stores@.passports =~= expected.passports);
        }
        self.put_stores(stores);

        // The reason goes out with the notification, and is not stored.
        Ok(PassportRevoked { token_id, issuer: caller, reason, revoked_at: ctx.block_number })
    }

    // Ownership (NFT-like).

    /// The number of tokens that `owner` holds.
    pub fn balance_of(&self, owner: Address) -> (count: u128)
        ensures
            count == self@.balance_of(owner),
            count == self@.tokens_of(owner).len(),
    {
        proof {
            use_type_invariant(self);
            assert(self@.balance_of(owner) == self@.tokens_of(owner).len());
        }
        match self.stores.owned_tokens_count.get(&owner) {
            Some(count) => *count,
            None => 0,
        }
    }

    /// The current holder of a token: none, if it was never registered.
    pub fn owner_of(&self, token_id: u128) -> (owner: Option<Address>)
        ensures
            owner == self@.owner_of(token_id),
    {
        match self.stores.token_owner.get(&token_id) {
            Some(owner) => Some(*owner),
            None => None,
        }
    }

    /// The account approved for a token, if there is one.
    pub fn get_approved(&self, token_id: u128) -> (approved: Option<Address>)
        ensures
            approved == self@.get_approved(token_id),
    {
        match self.stores.token_approvals.get(&token_id) {
            Some(approved) => Some(*approved),
            None => None,
        }
    }

    /// Whether `operator` holds a blanket approval of `owner`.
    pub fn is_approved_for_all(&self, owner: Address, operator: Address) -> (approved: bool)
        ensures
            approved == self@.is_approved_for_all(owner, operator),
    {
        self.stores.operator_approvals.contains(&(owner, operator))
    }

    /// Approves `to` to transfer the token, in place of any earlier approval.
    ///
    /// The caller must be the holder or one of its operators, and `to` must
    /// not be the holder.
    pub fn approve(&mut self, ctx: CallContext, to: Address, token_id: u128) -> (outcome: Result<
        Approval,
        Error,
    >)
        ensures
            final(self)@.valid(),
            final(self)@ == old(self)@.after(Invocation { ctx, call: Call::Approve { to, token_id } }),
            match outcome {
                Ok(notice) => {
                    &&& old(self)@.approve_error(ctx.caller, to, token_id) is None
                    &&& final(self)@ == old(self)@.approved(to, token_id)
                    &&& notice == (Approval {
                        owner: old(self)@.token_owner[token_id],
                        approved: to,
                        token_id,
                    })
                },
                Err(e) => {
                    &&& old(self)@.approve_error(ctx.caller, to, token_id) == Some(e)
                    &&& final(self)@ == old(self)@
                },
            },
    {
        proof {
            use_type_invariant(&*self);
        }
        let caller = ctx.caller;
        let owner = self.owner_of(token_id);
        let caller_is_operator = match owner {
            Some(owner) => self.is_approved_for_all(owner, caller),
            None => false,
        };

        check_approve(owner, caller, to, caller_is_operator)?;
        proof {
            lemma_approved_valid(self@, caller, to, token_id);
        }

        let mut stores = self.take_stores();
        stores.token_approvals.insert(token_id, to);
        self.put_stores(stores);

        Ok(Approval { owner: owner.unwrap(), approved: to, token_id })
    }

    /// Grants (`approved`) or withdraws the caller's blanket approval for
    /// `operator`. Nobody can name itself.
    pub fn set_approval_for_all(&mut self, ctx: CallContext, operator: Address, approved: bool) -> (outcome:
        Result<ApprovalForAll, Error>)
        ensures
            final(self)@.valid(),
            final(self)@ == old(self)@.after(
                Invocation { ctx, call: Call::SetApprovalForAll { operator, approved } },
            ),
            match outcome {
                Ok(notice) => {
                    &&& RegistryState::set_approval_error(ctx.caller, operator) is None
                    &&& final(self)@ == old(self)@.approval_for_all_set(
                        ctx.caller,
                        operator,
                        approved,
                    )
                    &&& notice == (ApprovalForAll { owner: ctx.caller, operator, approved })
                },
                Err(e) => {
                    &&& RegistryState::set_approval_error(ctx.caller, operator) == Some(e)
                    &&& final(self)@ == old(self)@
                },
            },
    {
        proof {
            use_type_invariant(&*self);
        }
        let caller = ctx.caller;

        check_operator(caller, operator)?;
        proof {
            lemma_approval_for_all_set_valid(self@, caller, operator, approved);
        }

        let mut stores = self.take_stores();
        if approved {
            stores.operator_approvals.insert((caller, operator), ());
        } else {
            stores.operator_approvals.remove(&(caller, operator));
        }
        self.put_stores(stores);

        Ok(ApprovalForAll { owner: caller, operator, approved })
    }

    /// Transfers a token that the caller holds to `to`.
    pub fn transfer(&mut self, ctx: CallContext, to: Address, token_id: u128) -> (outcome: Result<
        Transfer,
        Error,
    >)
        ensures
            final(self)@.valid(),
            final(self)@ == old(self)@.after(
                Invocation { ctx, call: Call::TransferFrom { from: ctx.caller, to, token_id } },
            ),
            match outcome {
                Ok(notice) => {
                    &&& old(self)@.transfer_error(ctx.caller, ctx.caller, token_id) is None
                    &&& final(self)@ == old(self)@.transferred(ctx.caller, to, token_id)
                    &&& notice == (Transfer { from: Some(ctx.caller), to: Some(to), token_id })
                },
                Err(e) => {
                    &&& old(self)@.transfer_error(ctx.caller, ctx.caller, token_id) == Some(e)
                    &&& final(self)@ == old(self)@
                },
            },
    {
        let caller = ctx.caller;
        self.transfer_token_from(ctx, &caller, &to, token_id)
    }

    /// Transfers a token from its holder `from` to `to`. The caller must be
    /// the holder, the token's approved account, or an operator of the holder.
    pub fn transfer_from(&mut self, ctx: CallContext, from: Address, to: Address, token_id: u128) -> (outcome:
        Result<Transfer, Error>)
        ensures
            final(self)@.valid(),
            final(self)@ == old(self)@.after(
                Invocation { ctx, call: Call::TransferFrom { from, to, token_id } },
            ),
            match outcome {
                Ok(notice) => {
                    &&& old(self)@.transfer_error(ctx.caller, from, token_id) is None
                    &&& final(self)@ == old(self)@.transferred(from, to, token_id)
                    &&& notice == (Transfer { from: Some(from), to: Some(to), token_id })
                },
                Err(e) => {
                    &&& old(self)@.transfer_error(ctx.caller, from, token_id) == Some(e)
                    &&& final(self)@ == old(self)@
                },
            },
    {
        self.transfer_token_from(ctx, &from, &to, token_id)
    }

    // Query messages

    /// Get next token ID (for informational purposes). There is always
    /// one to give: the counter stays below its limit.
    pub fn next_token_id(&self) -> (next: u128)
        ensures
            next == self@.next_token_id,
            next < u128::MAX,
    {
        proof {
            use_type_invariant(self);
            self.stores.token_owner.lemma_size();
        }
        self.stores.next_token_id
    }

    /// Get a specific version from the ledger.
    pub fn get_version(&self, token_id: u128, version: u32) -> (entry: Option<VersionHistory>)
        ensures
            match entry {
                Some(e) => self@.get_version(token_id, version) == Some(e@),
                None => self@.get_version(token_id, version) is None,
            },
    {
        match self.stores.version_history.get(&(token_id, version)) {
            Some(entry) => Some(entry.clone()),
            None => None,
        }
    }

    /// Get all version history for a passport, in ascending order
    /// (v1, v2, v3, ...): empty if the token does not exist.
    pub fn get_version_history(&self, token_id: u128) -> (history: Vec<VersionHistory>)
        ensures
            history@.len() == self@.history(token_id).len(),
            forall|i: int|
                0 <= i < history@.len() ==> (#[trigger] history@[i])@ == self@.history(token_id)[i],
    {
        proof {
            use_type_invariant(self);
        }
        // Get current passport to know the latest version
        let current_version = match self.stores.passports.get(&token_id) {
            Some(record) => record.version,
            None => {
                return Vec::new();
            },
        };

        let mut history: Vec<VersionHistory> = Vec::new();

        // Iterate through all versions (1..=current_version)
        let mut read: u32 = 0;
        while read < current_version
            invariant
                self@.valid(),
                self@.passports.contains_key(token_id),
                current_version == self@.passports[token_id].version,
                read <= current_version,
                history@.len() == read,
                forall|i: int|
                    0 <= i < read ==> (#[trigger] history@[i])@ == self@.version_history[(
                        token_id,
                        (i + 1) as u32,
                    )],
            decreases current_version - read,
        {
            let v = read + 1;
            assert(self@.version_history.contains_key((token_id, v)));
            if let Some(entry) = self.stores.version_history.get(&(token_id, v)) {
                history.push(entry.clone());
            }
            read = v;
        }

        history
    }

    /// Get the latest `limit` versions, in descending order (newest first).
    pub fn get_recent_versions(&self, token_id: u128, limit: u32) -> (history: Vec<VersionHistory>)
        ensures
            history@.len() == self@.recent_versions(token_id, limit).len(),
            forall|i: int|
                0 <= i < history@.len() ==> (#[trigger] history@[i])@ == self@.recent_versions(
                    token_id,
                    limit,
                )[i],
    {
        proof {
            use_type_invariant(self);
        }
        let current_version = match self.stores.passports.get(&token_id) {
            Some(record) => record.version,
            None => {
                return Vec::new();
            },
        };

        let mut history: Vec<VersionHistory> = Vec::new();

        // Start from current version and go backwards
        let wanted = if current_version > limit {
            limit
        } else {
            current_version
        };

        let mut read: u32 = 0;
        while read < wanted
            invariant
                self@.valid(),
                self@.passports.contains_key(token_id),
                current_version == self@.passports[token_id].version,
                wanted <= current_version,
                read <= wanted,
                history@.len() == read,
                forall|i: int|
                    0 <= i < read ==> (#[trigger] history@[i])@ == self@.version_history[(
                        token_id,
                        (current_version - i) as u32,
                    )],
            decreases wanted - read,
        {
            let v = current_version - read;
            assert(self@.version_history.contains_key((token_id, v)));
            if let Some(entry) = self.stores.version_history.get(&(token_id, v)) {
                history.push(entry.clone());
            }
            read = read + 1;
        }

        history
    }

    /// Find the token that a subject hash was last stored for.
    pub fn find_token_by_subject_id(&self, subject_id_hash: [u8; 32]) -> (token_id: Option<u128>)
        ensures
            token_id == self@.find_token_by_subject_id(subject_id_hash),
    {
        match self.stores.subject_id_to_token.get(&subject_id_hash) {
            Some(token_id) => Some(*token_id),
            None => None,
        }
    }

    /// The transfer that `transfer` and `transfer_from` share.
    fn transfer_token_from(&mut self, ctx: CallContext, from: &Address, to: &Address, token_id: u128) -> (outcome:
        Result<Transfer, Error>)
        ensures
            final(self)@.valid(),
            match outcome {
                Ok(notice) => {
                    &&& old(self)@.transfer_error(ctx.caller, *from, token_id) is None
                    &&& final(self)@ == old(self)@.transferred(*from, *to, token_id)
                    &&& notice == (Transfer { from: Some(*from), to: Some(*to), token_id })
                },
                Err(e) => {
                    &&& old(self)@.transfer_error(ctx.caller, *from, token_id) == Some(e)
                    &&& final(self)@ == old(self)@
                },
            },
    {
        proof {
            use_type_invariant(&*self);
        }
        let caller = ctx.caller;

        let owner = self.owner_of(token_id);
        let caller_is_operator = match owner {
            Some(owner) => self.is_approved_for_all(owner, caller),
            None => false,
        };
        check_transfer(
            self.stores.passports.get(&token_id),
            owner,
            *from,
            caller,
            self.get_approved(token_id),
            caller_is_operator,
        )?;
        proof {
            lemma_transferred_valid(self@, caller, *from, *to, token_id);
        }

        let mut stores = self.take_stores();
        stores.clear_approval(token_id);
        stores.remove_token_from(from, token_id)?;
        stores.add_token_to(to, token_id)?;
        self.put_stores(stores);

        Ok(Transfer { from: Some(*from), to: Some(*to), token_id })
    }
}

} // verus!
