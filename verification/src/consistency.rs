//! The consistency that the registry keeps between its stores.

use vstd::prelude::*;
use vstd::set_lib::lemma_len_subset;
use crate::record::{PassportView, VersionView};
use crate::state::RegistryState;
use crate::types::{Address, CallContext, Granularity, PassportStatus};

verus! {

impl PassportView {
    /// What holds of the record stored under `token_id`.
    pub open spec fn well_formed(self, token_id: u128) -> bool {
        &&& self.token_id == token_id
        &&& self.version >= 1
        &&& self.dataset_uri.len() > 0
        &&& self.dataset_type.len() > 0
        &&& (self.status == PassportStatus::Active || self.status == PassportStatus::Revoked)
    }

    /// The ledger entry holds the content that the record holds now.
    pub open spec fn mirrored_by(self, entry: VersionView) -> bool {
        &&& entry.dataset_uri == self.dataset_uri
        &&& entry.payload_hash == self.payload_hash
        &&& entry.dataset_type == self.dataset_type
    }
}

impl RegistryState {
    /// Record store: the registered tokens are those below the counter, and
    /// every record is well formed.
    pub open spec fn records_valid(self) -> bool {
        &&& forall|t: u128| #[trigger] self.passports.contains_key(t) <==> t < self.next_token_id
        &&& forall|t: u128| #[trigger]
            self.passports.contains_key(t) ==> self.passports[t].well_formed(t)
    }

    /// Version ledger: a token has exactly the entries 1 to its version, each
    /// written by the issuer under its own number; the newest holds the
    /// record's content, the first the time of creation.
    pub open spec fn ledger_valid(self) -> bool {
        &&& forall|t: u128, v: u32| #[trigger]
            self.version_history.contains_key((t, v)) <==> (self.passports.contains_key(t) && 1 <= v
                <= self.passports[t].version)
        &&& forall|t: u128, v: u32| #[trigger]
            self.version_history.contains_key((t, v)) ==> {
                &&& self.version_history[(t, v)].version == v
                &&& self.version_history[(t, v)].updated_by == self.passports[t].issuer
                &&& self.version_history[(t, v)].dataset_uri.len() > 0
                &&& self.version_history[(t, v)].dataset_type.len() > 0
            }
        &&& forall|t: u128| #[trigger]
            self.passports.contains_key(t) ==> {
                &&& self.passports[t].mirrored_by(self.version_history[(t, self.passports[t].version)])
                &&& self.version_history[(t, 1)].updated_at == self.passports[t].created_at
            }
    }

    /// Ownership ledger: every registered token has one holder; an approval
    /// never names the holder; nobody is its own operator; and the stored
    /// count of a holder is the number of tokens that it holds.
    pub open spec fn ownership_valid(self) -> bool {
        &&& forall|t: u128| #[trigger] self.token_owner.contains_key(t) <==> t < self.next_token_id
        &&& self.token_owner.dom().finite()
        &&& self.token_owner.dom().len() == self.next_token_id
        &&& forall|t: u128| #[trigger]
            self.token_approvals.contains_key(t) ==> self.token_owner.contains_key(t)
                && self.token_approvals[t] != self.token_owner[t]
        &&& forall|owner: Address, operator: Address| #[trigger]
            self.operator_approvals.contains((owner, operator)) ==> owner != operator
        &&& self.counts_agree()
    }

    /// The stored count of every account is the number of tokens that it holds.
    pub open spec fn counts_agree(self) -> bool {
        forall|holder: Address| #[trigger] self.balance_of(holder) == self.tokens_of(holder).len()
    }

    /// Subject index: it points to registered tokens only, and holds an
    /// entry for the subject hash of every record.
    pub open spec fn subjects_valid(self) -> bool {
        &&& forall|hash: [u8; 32]| #[trigger]
            self.subject_id_to_token.contains_key(hash) ==> self.passports.contains_key(
                self.subject_id_to_token[hash],
            )
        &&& forall|t: u128| #[trigger]
            self.passports.contains_key(t) ==> (self.passports[t].subject_id_hash matches Some(hash)
                ==> self.subject_id_to_token.contains_key(hash))
    }

    /// The invariant of the registry.
    pub open spec fn valid(self) -> bool {
        &&& self.records_valid()
        &&& self.ledger_valid()
        &&& self.ownership_valid()
        &&& self.subjects_valid()
    }
}

/// The empty registry is consistent.
pub proof fn lemma_initial_valid()
    ensures
        RegistryState::initial().valid(),
{
    let s = RegistryState::initial();
    assert forall|holder: Address| #[trigger] s.balance_of(holder) == s.tokens_of(holder).len() by {
        assert(s.tokens_of(holder) =~= Set::<u128>::empty());
    }
}

/// The tokens of one holder are finitely many, and no more than all tokens.
pub proof fn lemma_tokens_of_bounded(s: RegistryState, holder: Address)
    requires
        s.token_owner.dom().finite(),
    ensures
        s.tokens_of(holder).finite(),
        s.tokens_of(holder).len() <= s.token_owner.dom().len(),
{
    lemma_len_subset(s.tokens_of(holder), s.token_owner.dom());
}

/// Giving a token without holder to `to` keeps the counts in step with the
/// holdings, and makes the tokens one more.
pub proof fn lemma_token_added(s: RegistryState, to: Address, token_id: u128)
    requires
        s.token_owner.dom().finite(),
        s.counts_agree(),
        !s.token_owner.contains_key(token_id),
        s.balance_of(to) < u128::MAX,
    ensures
        s.token_added(to, token_id).token_owner.dom().finite(),
        s.token_added(to, token_id).token_owner.dom().len() == s.token_owner.dom().len() + 1,
        s.token_added(to, token_id).counts_agree(),
{
    let a = s.token_added(to, token_id);
    assert forall|holder: Address| #[trigger] a.balance_of(holder) == a.tokens_of(holder).len() by {
        lemma_tokens_of_bounded(s, holder);
        assert(s.balance_of(holder) == s.tokens_of(holder).len());
        if holder == to {
            assert(a.tokens_of(holder) =~= s.tokens_of(holder).insert(token_id));
        } else {
            assert(a.tokens_of(holder) =~= s.tokens_of(holder));
        }
    }
}

/// Taking a token from its holder keeps the counts in step with the
/// holdings, and makes the tokens one less.
pub proof fn lemma_token_removed(s: RegistryState, from: Address, token_id: u128)
    requires
        s.token_owner.dom().finite(),
        s.counts_agree(),
        s.token_owner.contains_key(token_id),
        s.token_owner[token_id] == from,
    ensures
        s.balance_of(from) >= 1,
        s.token_removed(from, token_id).token_owner.dom().finite(),
        s.token_removed(from, token_id).token_owner.dom().len() == s.token_owner.dom().len() - 1,
        s.token_removed(from, token_id).counts_agree(),
{
    let r = s.token_removed(from, token_id);
    lemma_tokens_of_bounded(s, from);
    assert(r.token_owner.dom() =~= s.token_owner.dom().remove(token_id));
    assert forall|holder: Address| #[trigger] r.balance_of(holder) == r.tokens_of(holder).len() by {
        lemma_tokens_of_bounded(s, holder);
        assert(s.balance_of(holder) == s.tokens_of(holder).len());
        if holder == from {
            assert(r.tokens_of(holder) =~= s.tokens_of(holder).remove(token_id));
        } else {
            assert(r.tokens_of(holder) =~= s.tokens_of(holder));
        }
    }
}

/// The counts stay in step with the holdings where neither changes.
pub proof fn lemma_counts_carried(s: RegistryState, after: RegistryState)
    requires
        s.counts_agree(),
        after.token_owner == s.token_owner,
        after.owned_tokens_count == s.owned_tokens_count,
    ensures
        after.counts_agree(),
{
    assert forall|holder: Address| #[trigger]
        after.balance_of(holder) == after.tokens_of(holder).len() by {
        assert(s.balance_of(holder) == s.tokens_of(holder).len());
    }
}

/// A successful registration keeps the registry consistent, and the
/// bookkeeping of the new token cannot fail.
pub proof fn lemma_registered_valid(
    s: RegistryState,
    ctx: CallContext,
    dataset_uri: Seq<char>,
    payload_hash: [u8; 32],
    dataset_type: Seq<char>,
    granularity: Granularity,
    subject_id_hash: Option<[u8; 32]>,
)
    requires
        s.valid(),
        s.next_token_id < u128::MAX,
        RegistryState::register_error(dataset_uri, dataset_type) is None,
    ensures
        s.add_token_error(ctx.caller, s.next_token_id) is None,
        s.registered(
            ctx,
            dataset_uri,
            payload_hash,
            dataset_type,
            granularity,
            subject_id_hash,
        ).valid(),
{
    let token_id = s.next_token_id;
    let added = s.token_added(ctx.caller, token_id);
    let after = s.registered(
        ctx,
        dataset_uri,
        payload_hash,
        dataset_type,
        granularity,
        subject_id_hash,
    );
    // The caller holds no more tokens than there are, so its count has room.
    lemma_tokens_of_bounded(s, ctx.caller);
    lemma_token_added(s, ctx.caller, token_id);
    lemma_counts_carried(added, after);
    // The new token has no ledger entry yet, and gets its first.
    assert(after.ledger_valid());
}

/// A successful update keeps the registry consistent.
pub proof fn lemma_updated_valid(
    s: RegistryState,
    ctx: CallContext,
    token_id: u128,
    dataset_uri: Seq<char>,
    payload_hash: [u8; 32],
    dataset_type: Seq<char>,
    subject_id_hash: Option<[u8; 32]>,
)
    requires
        s.valid(),
        s.update_error(ctx.caller, token_id, dataset_uri, dataset_type) is None,
        s.passports[token_id].version < u32::MAX,
    ensures
        s.updated(ctx, token_id, dataset_uri, payload_hash, dataset_type, subject_id_hash).valid(),
{
    let after = s.updated(ctx, token_id, dataset_uri, payload_hash, dataset_type, subject_id_hash);
    lemma_counts_carried(s, after);
    assert(after.ledger_valid());
}

/// A successful revocation keeps the registry consistent.
pub proof fn lemma_revoked_valid(s: RegistryState, ctx: CallContext, token_id: u128)
    requires
        s.valid(),
        s.revoke_error(ctx.caller, token_id) is None,
    ensures
        s.revoked(ctx, token_id).valid(),
{
    let after = s.revoked(ctx, token_id);
    lemma_counts_carried(s, after);
    assert(after.ledger_valid());
    assert(after.subjects_valid());
}

/// A successful approval keeps the registry consistent.
pub proof fn lemma_approved_valid(s: RegistryState, caller: Address, to: Address, token_id: u128)
    requires
        s.valid(),
        s.approve_error(caller, to, token_id) is None,
    ensures
        s.approved(to, token_id).valid(),
{
    lemma_counts_carried(s, s.approved(to, token_id));
}

/// A successful change of a blanket approval keeps the registry consistent.
pub proof fn lemma_approval_for_all_set_valid(
    s: RegistryState,
    owner: Address,
    operator: Address,
    approved: bool,
)
    requires
        s.valid(),
        RegistryState::set_approval_error(owner, operator) is None,
    ensures
        s.approval_for_all_set(owner, operator, approved).valid(),
{
    lemma_counts_carried(s, s.approval_for_all_set(owner, operator, approved));
}

/// A successful transfer keeps the registry consistent, and its
/// bookkeeping cannot fail: the sender counts at least one token, and the
/// count of the receiver stays in range.
pub proof fn lemma_transferred_valid(
    s: RegistryState,
    caller: Address,
    from: Address,
    to: Address,
    token_id: u128,
)
    requires
        s.valid(),
        s.transfer_error(caller, from, token_id) is None,
    ensures
        s.approval_cleared(token_id).remove_token_error(from, token_id) is None,
        s.approval_cleared(token_id).token_removed(from, token_id).add_token_error(to, token_id)
            is None,
        s.transferred(from, to, token_id).valid(),
        s.transferred(from, to, token_id).token_owner == s.token_owner.insert(token_id, to),
{
    let cleared = s.approval_cleared(token_id);
    let removed = cleared.token_removed(from, token_id);
    lemma_counts_carried(s, cleared);
    lemma_token_removed(cleared, from, token_id);
    // Without the token, the receiver holds fewer tokens than there are.
    lemma_tokens_of_bounded(removed, to);
    lemma_token_added(removed, to, token_id);
    assert(s.transferred(from, to, token_id).token_owner =~= s.token_owner.insert(token_id, to));
}

} // verus!
