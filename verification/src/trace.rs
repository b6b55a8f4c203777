//! Sequences of calls: what a history of use does to the registry.

use vstd::prelude::*;
use crate::consistency::{
    lemma_approval_for_all_set_valid, lemma_approved_valid, lemma_registered_valid,
    lemma_revoked_valid, lemma_transferred_valid, lemma_updated_valid,
};
use crate::record::VersionView;
use crate::state::RegistryState;
use crate::types::{Address, CallContext, Error, Granularity};

verus! {

/// One of the registry's writing operations, with its inputs. A transfer by
/// the holder itself is a `TransferFrom` that names the caller as `from`.
pub enum Call {
    Register {
        dataset_uri: Seq<char>,
        payload_hash: [u8; 32],
        dataset_type: Seq<char>,
        granularity: Granularity,
        subject_id_hash: Option<[u8; 32]>,
    },
    Update {
        token_id: u128,
        dataset_uri: Seq<char>,
        payload_hash: [u8; 32],
        dataset_type: Seq<char>,
        subject_id_hash: Option<[u8; 32]>,
    },
    Revoke { token_id: u128 },
    Approve { to: Address, token_id: u128 },
    SetApprovalForAll { operator: Address, approved: bool },
    TransferFrom { from: Address, to: Address, token_id: u128 },
}

/// A call together with what the host supplied for it.
pub struct Invocation {
    pub ctx: CallContext,
    pub call: Call,
}

impl RegistryState {
    /// Why the call fails in this state, if it does.
    pub open spec fn error_of(self, inv: Invocation) -> Option<Error> {
        let caller = inv.ctx.caller;
        match inv.call {
            Call::Register { dataset_uri, dataset_type, .. } => RegistryState::register_error(
                dataset_uri,
                dataset_type,
            ),
            Call::Update { token_id, dataset_uri, dataset_type, .. } => self.update_error(
                caller,
                token_id,
                dataset_uri,
                dataset_type,
            ),
            Call::Revoke { token_id } => self.revoke_error(caller, token_id),
            Call::Approve { to, token_id } => self.approve_error(caller, to, token_id),
            Call::SetApprovalForAll { operator, .. } => RegistryState::set_approval_error(
                caller,
                operator,
            ),
            Call::TransferFrom { from, token_id, .. } => self.transfer_error(caller, from, token_id),
        }
    }

    /// The call leaves the counters in their range: a registration finds a
    /// free token id, an update a free version number.
    pub open spec fn permits(self, inv: Invocation) -> bool {
        self.error_of(inv) is None ==> match inv.call {
            Call::Register { .. } => self.next_token_id < u128::MAX,
            Call::Update { token_id, .. } => self.passports[token_id].version < u32::MAX,
            _ => true,
        }
    }

    /// The state after the call: changed as the operation says where it
    /// succeeds, and the same where it fails.
    pub open spec fn after(self, inv: Invocation) -> RegistryState {
        let ctx = inv.ctx;
        if self.error_of(inv) is Some {
            self
        } else {
            match inv.call {
                Call::Register {
                    dataset_uri,
                    payload_hash,
                    dataset_type,
                    granularity,
                    subject_id_hash,
                } => self.registered(
                    ctx,
                    dataset_uri,
                    payload_hash,
                    dataset_type,
                    granularity,
                    subject_id_hash,
                ),
                Call::Update {
                    token_id,
                    dataset_uri,
                    payload_hash,
                    dataset_type,
                    subject_id_hash,
                } => self.updated(
                    ctx,
                    token_id,
                    dataset_uri,
                    payload_hash,
                    dataset_type,
                    subject_id_hash,
                ),
                Call::Revoke { token_id } => self.revoked(ctx, token_id),
                Call::Approve { to, token_id } => self.approved(to, token_id),
                Call::SetApprovalForAll { operator, approved } => self.approval_for_all_set(
                    ctx.caller,
                    operator,
                    approved,
                ),
                Call::TransferFrom { from, to, token_id } => self.transferred(from, to, token_id),
            }
        }
    }

    /// The state after a sequence of calls, made one after the other.
    pub open spec fn after_all(self, calls: Seq<Invocation>) -> RegistryState
        decreases calls.len(),
    {
        if calls.len() == 0 {
            self
        } else {
            self.after_all(calls.drop_last()).after(calls.last())
        }
    }

    /// Every call of the sequence leaves the counters in their range.
    pub open spec fn permits_all(self, calls: Seq<Invocation>) -> bool
        decreases calls.len(),
    {
        calls.len() > 0 ==> {
            &&& self.permits_all(calls.drop_last())
            &&& self.after_all(calls.drop_last()).permits(calls.last())
        }
    }

    /// Whether the call is a registration that succeeds.
    pub open spec fn registers(self, inv: Invocation) -> bool {
        inv.call is Register && self.error_of(inv) is None
    }

    /// Whether the call is an update of `token_id` that succeeds.
    pub open spec fn updates(self, inv: Invocation, token_id: u128) -> bool {
        inv.call matches Call::Update { token_id: updated, .. } && updated == token_id
            && self.error_of(inv) is None
    }

    /// How many registrations of the sequence succeed.
    pub open spec fn registrations(self, calls: Seq<Invocation>) -> nat
        decreases calls.len(),
    {
        if calls.len() == 0 {
            0
        } else {
            self.registrations(calls.drop_last()) + if self.after_all(calls.drop_last()).registers(
                calls.last(),
            ) {
                1nat
            } else {
                0nat
            }
        }
    }

    /// The ledger entry that an update call supplies as version `version`.
    pub open spec fn supplied_entry(inv: Invocation, version: nat) -> VersionView {
        VersionView {
            version: version as u32,
            dataset_uri: inv.call->Update_dataset_uri,
            payload_hash: inv.call->Update_payload_hash,
            dataset_type: inv.call->Update_dataset_type,
            updated_at: inv.ctx.block_number,
            updated_by: inv.ctx.caller,
        }
    }

    /// What the successful updates of `token_id` in the sequence supply, in
    /// the order of the calls, numbered on from the token's version.
    pub open spec fn supplied_updates(self, calls: Seq<Invocation>, token_id: u128) -> Seq<
        VersionView,
    >
        decreases calls.len(),
    {
        if calls.len() == 0 {
            Seq::empty()
        } else {
            let earlier = self.supplied_updates(calls.drop_last(), token_id);
            if self.after_all(calls.drop_last()).updates(calls.last(), token_id) {
                earlier.push(
                    RegistryState::supplied_entry(
                        calls.last(),
                        self.version_count(token_id) + earlier.len() + 1,
                    ),
                )
            } else {
                earlier
            }
        }
    }
}

/// A call that leaves the counters in their range keeps the registry
/// consistent, whether it succeeds or fails.
pub proof fn lemma_after_valid(s: RegistryState, inv: Invocation)
    requires
        s.valid(),
        s.permits(inv),
    ensures
        s.after(inv).valid(),
{
    let ctx = inv.ctx;
    if s.error_of(inv) is None {
        match inv.call {
            Call::Register { dataset_uri, payload_hash, dataset_type, granularity, subject_id_hash } => {
                lemma_registered_valid(
                    s,
                    ctx,
                    dataset_uri,
                    payload_hash,
                    dataset_type,
                    granularity,
                    subject_id_hash,
                );
            },
            Call::Update { token_id, dataset_uri, payload_hash, dataset_type, subject_id_hash } => {
                lemma_updated_valid(
                    s,
                    ctx,
                    token_id,
                    dataset_uri,
                    payload_hash,
                    dataset_type,
                    subject_id_hash,
                );
            },
            Call::Revoke { token_id } => {
                lemma_revoked_valid(s, ctx, token_id);
            },
            Call::Approve { to, token_id } => {
                lemma_approved_valid(s, ctx.caller, to, token_id);
            },
            Call::SetApprovalForAll { operator, approved } => {
                lemma_approval_for_all_set_valid(s, ctx.caller, operator, approved);
            },
            Call::TransferFrom { from, to, token_id } => {
                lemma_transferred_valid(s, ctx.caller, from, to, token_id);
            },
        }
    }
}

/// A sequence of calls that leave the counters in their range keeps the
/// registry consistent.
pub proof fn lemma_after_all_valid(s: RegistryState, calls: Seq<Invocation>)
    requires
        s.valid(),
        s.permits_all(calls),
    ensures
        s.after_all(calls).valid(),
    decreases calls.len(),
{
    if calls.len() > 0 {
        lemma_after_all_valid(s, calls.drop_last());
        lemma_after_valid(s.after_all(calls.drop_last()), calls.last());
    }
}

} // verus!
