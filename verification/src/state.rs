//! The registry as a mathematical value: its state, what can be asked of
//! it, and what each operation does to it.

use vstd::prelude::*;
use crate::record::{PassportView, VersionView};
use crate::rules;
use crate::types::{Address, CallContext, Error, Granularity};

verus! {

/// The whole persisted state of the registry.
pub struct RegistryState {
    /// Record store: the current record of every registered token.
    pub passports: Map<u128, PassportView>,
    /// The id that the next registration will get.
    pub next_token_id: u128,
    /// Version ledger, keyed by token and version number.
    pub version_history: Map<(u128, u32), VersionView>,
    /// Subject index: the token last registered or updated with a subject hash.
    pub subject_id_to_token: Map<[u8; 32], u128>,
    /// The current holder of every token.
    pub token_owner: Map<u128, Address>,
    /// The single approval of a token, where one is in force.
    pub token_approvals: Map<u128, Address>,
    /// The stored number of tokens per holder.
    pub owned_tokens_count: Map<Address, u128>,
    /// The blanket approvals, as pairs of holder and operator.
    pub operator_approvals: Set<(Address, Address)>,
}

impl RegistryState {
    // ----- Queries -----

    /// The state of a registry that nothing was registered in.
    pub open spec fn initial() -> RegistryState {
        RegistryState {
            passports: Map::empty(),
            next_token_id: 0,
            version_history: Map::empty(),
            subject_id_to_token: Map::empty(),
            token_owner: Map::empty(),
            token_approvals: Map::empty(),
            owned_tokens_count: Map::empty(),
            operator_approvals: Set::empty(),
        }
    }

    /// The record of a token, if it is registered.
    pub open spec fn get_passport(self, token_id: u128) -> Option<PassportView> {
        if self.passports.contains_key(token_id) {
            Some(self.passports[token_id])
        } else {
            None
        }
    }

    /// The holder of a token, if it has one.
    pub open spec fn owner_of(self, token_id: u128) -> Option<Address> {
        if self.token_owner.contains_key(token_id) {
            Some(self.token_owner[token_id])
        } else {
            None
        }
    }

    /// The account approved for a token, if there is one.
    pub open spec fn get_approved(self, token_id: u128) -> Option<Address> {
        if self.token_approvals.contains_key(token_id) {
            Some(self.token_approvals[token_id])
        } else {
            None
        }
    }

    /// Whether `operator` holds a blanket approval of `owner`.
    pub open spec fn is_approved_for_all(self, owner: Address, operator: Address) -> bool {
        self.operator_approvals.contains((owner, operator))
    }

    /// The stored token count of `owner`: 0 where none is stored.
    pub open spec fn balance_of(self, owner: Address) -> u128 {
        if self.owned_tokens_count.contains_key(owner) {
            self.owned_tokens_count[owner]
        } else {
            0
        }
    }

    /// The sum of the stored counts of the holders listed.
    pub open spec fn total_balance(self, holders: Seq<Address>) -> nat
        decreases holders.len(),
    {
        if holders.len() == 0 {
            0
        } else {
            self.total_balance(holders.drop_last()) + self.balance_of(holders.last()) as nat
        }
    }

    /// The tokens that one of the holders listed holds.
    pub open spec fn tokens_of_any(self, holders: Seq<Address>) -> Set<u128> {
        Set::new(
            |t: u128| self.token_owner.contains_key(t) && holders.contains(self.token_owner[t]),
        )
    }

    /// The tokens that `holder` holds.
    pub open spec fn tokens_of(self, holder: Address) -> Set<u128> {
        Set::new(|t: u128| self.token_owner.contains_key(t) && self.token_owner[t] == holder)
    }

    /// The ledger entry of a token for one version number, if there is one.
    pub open spec fn get_version(self, token_id: u128, version: u32) -> Option<VersionView> {
        if self.version_history.contains_key((token_id, version)) {
            Some(self.version_history[(token_id, version)])
        } else {
            None
        }
    }

    /// The number of versions of a token: 0 for a token that is unknown.
    pub open spec fn version_count(self, token_id: u128) -> nat {
        if self.passports.contains_key(token_id) {
            self.passports[token_id].version as nat
        } else {
            0
        }
    }

    /// The ledger entries of a token, version 1 first.
    pub open spec fn history(self, token_id: u128) -> Seq<VersionView> {
        Seq::new(
            self.version_count(token_id),
            |i: int| self.version_history[(token_id, (i + 1) as u32)],
        )
    }

    /// The newest `min(limit, versions)` ledger entries of a token, newest first.
    pub open spec fn recent_versions(self, token_id: u128, limit: u32) -> Seq<VersionView> {
        let count = self.version_count(token_id);
        Seq::new(
            if limit < count { limit as nat } else { count },
            |i: int| self.version_history[(token_id, (count - i) as u32)],
        )
    }

    /// The token that the subject index holds for a hash, if any.
    pub open spec fn find_token_by_subject_id(self, subject_id_hash: [u8; 32]) -> Option<u128> {
        if self.subject_id_to_token.contains_key(subject_id_hash) {
            Some(self.subject_id_to_token[subject_id_hash])
        } else {
            None
        }
    }

    // ----- Registration -----

    /// Why a registration with these strings fails, if it does.
    pub open spec fn register_error(dataset_uri: Seq<char>, dataset_type: Seq<char>) -> Option<Error> {
        rules::content_error(dataset_uri, dataset_type)
    }

    /// The subject index once `subject_id_hash`, if there is one, points to `token_id`.
    pub open spec fn subjects_with(self, subject_id_hash: Option<[u8; 32]>, token_id: u128) -> Map<
        [u8; 32],
        u128,
    > {
        match subject_id_hash {
            Some(hash) => self.subject_id_to_token.insert(hash, token_id),
            None => self.subject_id_to_token,
        }
    }

    /// The state after a successful registration.
    pub open spec fn registered(
        self,
        ctx: CallContext,
        dataset_uri: Seq<char>,
        payload_hash: [u8; 32],
        dataset_type: Seq<char>,
        granularity: Granularity,
        subject_id_hash: Option<[u8; 32]>,
    ) -> RegistryState {
        let token_id = self.next_token_id;
        let record = PassportView::created(
            token_id,
            ctx,
            dataset_uri,
            payload_hash,
            dataset_type,
            granularity,
            subject_id_hash,
        );
        RegistryState {
            passports: self.passports.insert(token_id, record),
            next_token_id: (token_id + 1) as u128,
            version_history: self.version_history.insert((token_id, 1), record.ledger_entry(ctx.caller)),
            subject_id_to_token: self.subjects_with(subject_id_hash, token_id),
            ..self.token_added(ctx.caller, token_id)
        }
    }

    // ----- Update -----

    /// Why an update of `token_id` by `caller` fails, if it does.
    pub open spec fn update_error(
        self,
        caller: Address,
        token_id: u128,
        dataset_uri: Seq<char>,
        dataset_type: Seq<char>,
    ) -> Option<Error> {
        rules::update_error(self.get_passport(token_id), caller, dataset_uri, dataset_type)
    }

    /// The state after a successful update.
    pub open spec fn updated(
        self,
        ctx: CallContext,
        token_id: u128,
        dataset_uri: Seq<char>,
        payload_hash: [u8; 32],
        dataset_type: Seq<char>,
        subject_id_hash: Option<[u8; 32]>,
    ) -> RegistryState {
        let record = self.passports[token_id].updated(
            ctx,
            dataset_uri,
            payload_hash,
            dataset_type,
            subject_id_hash,
        );
        RegistryState {
            passports: self.passports.insert(token_id, record),
            version_history: self.version_history.insert(
                (token_id, record.version),
                record.ledger_entry(ctx.caller),
            ),
            subject_id_to_token: self.subjects_with(subject_id_hash, token_id),
            ..self
        }
    }

    // ----- Revocation -----

    /// Why a revocation of `token_id` by `caller` fails, if it does.
    pub open spec fn revoke_error(self, caller: Address, token_id: u128) -> Option<Error> {
        rules::revoke_error(self.get_passport(token_id), caller)
    }

    /// The state after a successful revocation.
    pub open spec fn revoked(self, ctx: CallContext, token_id: u128) -> RegistryState {
        RegistryState {
            passports: self.passports.insert(token_id, self.passports[token_id].revoked(ctx)),
            ..self
        }
    }

    // ----- Approvals -----

    /// Why an approval of `to` for `token_id` by `caller` fails, if it does.
    pub open spec fn approve_error(self, caller: Address, to: Address, token_id: u128) -> Option<
        Error,
    > {
        rules::approve_error(
            self.owner_of(token_id),
            caller,
            to,
            self.owner_of(token_id) matches Some(owner) && self.is_approved_for_all(owner, caller),
        )
    }

    /// The state after `to` was approved for `token_id`.
    pub open spec fn approved(self, to: Address, token_id: u128) -> RegistryState {
        RegistryState { token_approvals: self.token_approvals.insert(token_id, to), ..self }
    }

    /// The state once `token_id` has no approval.
    pub open spec fn approval_cleared(self, token_id: u128) -> RegistryState {
        RegistryState { token_approvals: self.token_approvals.remove(token_id), ..self }
    }

    /// Why `caller` cannot change its blanket approval for `operator`, if it cannot.
    pub open spec fn set_approval_error(caller: Address, operator: Address) -> Option<Error> {
        rules::operator_error(caller, operator)
    }

    /// The state after `owner` granted (`approved`) or withdrew its blanket
    /// approval for `operator`.
    pub open spec fn approval_for_all_set(
        self,
        owner: Address,
        operator: Address,
        approved: bool,
    ) -> RegistryState {
        RegistryState {
            operator_approvals: if approved {
                self.operator_approvals.insert((owner, operator))
            } else {
                self.operator_approvals.remove((owner, operator))
            },
            ..self
        }
    }

    // ----- Ownership bookkeeping -----

    /// Why `token_id` cannot be taken from `from`, if it cannot: it has no
    /// holder, or the count of `from` would fall below zero.
    pub open spec fn remove_token_error(self, from: Address, token_id: u128) -> Option<Error> {
        if !self.token_owner.contains_key(token_id) {
            Some(Error::TokenNotFound)
        } else if self.balance_of(from) == 0 {
            Some(Error::InvalidInput)
        } else {
            None
        }
    }

    /// The state once `token_id` has no holder and `from` counts one token less.
    pub open spec fn token_removed(self, from: Address, token_id: u128) -> RegistryState {
        RegistryState {
            owned_tokens_count: self.owned_tokens_count.insert(
                from,
                (self.balance_of(from) - 1) as u128,
            ),
            token_owner: self.token_owner.remove(token_id),
            ..self
        }
    }

    /// Why `token_id` cannot be given to `to`, if it cannot: it has a holder
    /// already, or the count of `to` would leave its range.
    pub open spec fn add_token_error(self, to: Address, token_id: u128) -> Option<Error> {
        if self.token_owner.contains_key(token_id) {
            Some(Error::InvalidInput)
        } else if self.balance_of(to) == u128::MAX {
            Some(Error::InvalidInput)
        } else {
            None
        }
    }

    /// The state once `to` holds `token_id` and counts one token more.
    pub open spec fn token_added(self, to: Address, token_id: u128) -> RegistryState {
        RegistryState {
            owned_tokens_count: self.owned_tokens_count.insert(to, (self.balance_of(to) + 1) as u128),
            token_owner: self.token_owner.insert(token_id, to),
            ..self
        }
    }

    // ----- Transfer -----

    /// Why a transfer of `token_id` from `from` by `caller` fails, if it does.
    pub open spec fn transfer_error(self, caller: Address, from: Address, token_id: u128) -> Option<
        Error,
    > {
        rules::transfer_error(
            self.get_passport(token_id),
            self.owner_of(token_id),
            from,
            caller,
            self.get_approved(token_id),
            self.owner_of(token_id) matches Some(owner) && self.is_approved_for_all(owner, caller),
        )
    }

    /// The state after `token_id` went from `from` to `to`.
    pub open spec fn transferred(self, from: Address, to: Address, token_id: u128) -> RegistryState {
        self.approval_cleared(token_id).token_removed(from, token_id).token_added(to, token_id)
    }
}

} // verus!
