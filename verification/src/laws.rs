//! What holds of the registry under every use of it.
//!
//! Each law is stated over the registry's state and the functions that the
//! operations' contracts are written in. A law about a sequence of calls
//! asks that every call leaves the two counters in their range: a registry
//! in memory never exhausts its token counter, and an update asks its
//! caller for a version counter that has not reached its limit.

use vstd::prelude::*;
use vstd::set_lib::lemma_set_disjoint_lens;
use crate::consistency::{lemma_approved_valid, lemma_tokens_of_bounded, lemma_transferred_valid};
use crate::record::{PassportView, VersionView};
use crate::state::RegistryState;
use crate::trace::{lemma_after_all_valid, lemma_after_valid, Call, Invocation};
use crate::types::{Address, CallContext, Error, Granularity, PassportStatus};

verus! {

// ----- Consistency -----

/// The registry stays consistent under every sequence of calls: the
/// registered tokens are those below the counter, each has one holder and
/// the ledger entries 1 to its version, and the count of every holder is
/// the number of tokens that it holds.
pub proof fn law_consistency_is_kept(s: RegistryState, calls: Seq<Invocation>)
    requires
        s.valid(),
        s.permits_all(calls),
    ensures
        s.after_all(calls).valid(),
{
    lemma_after_all_valid(s, calls);
}

/// A call that fails changes nothing.
pub proof fn law_failure_changes_nothing(s: RegistryState, inv: Invocation)
    requires
        s.error_of(inv) is Some,
    ensures
        s.after(inv) == s,
{
}

/// The counts of the holders add up to the number of tokens: over any
/// list of accounts without repetition that names the holder of every
/// token, the sum of the stored counts is the number of registered tokens.
pub proof fn law_balances_sum_to_token_count(s: RegistryState, holders: Seq<Address>)
    requires
        s.valid(),
        holders.no_duplicates(),
        forall|t: u128| #[trigger]
            s.token_owner.contains_key(t) ==> holders.contains(s.token_owner[t]),
    ensures
        s.total_balance(holders) == s.next_token_id,
{
    lemma_total_balance_counts_tokens(s, holders);
    assert(s.tokens_of_any(holders) =~= s.token_owner.dom());
}

/// The counts of distinct holders add up to the number of tokens that one
/// of them holds.
proof fn lemma_total_balance_counts_tokens(s: RegistryState, holders: Seq<Address>)
    requires
        s.valid(),
        holders.no_duplicates(),
    ensures
        s.tokens_of_any(holders).finite(),
        s.total_balance(holders) == s.tokens_of_any(holders).len(),
    decreases holders.len(),
{
    if holders.len() == 0 {
        assert(s.tokens_of_any(holders) =~= Set::<u128>::empty());
    } else {
        let earlier = holders.drop_last();
        let last = holders.last();
        lemma_total_balance_counts_tokens(s, earlier);
        lemma_tokens_of_bounded(s, last);
        assert(s.balance_of(last) == s.tokens_of(last).len());
        assert(s.tokens_of_any(earlier).disjoint(s.tokens_of(last))) by {
            assert forall|t: u128|
                !(s.tokens_of_any(earlier).contains(t) && s.tokens_of(last).contains(t)) by {
                if s.tokens_of_any(earlier).contains(t) && s.tokens_of(last).contains(t) {
                    let i = choose|i: int| 0 <= i < earlier.len() && earlier[i] == last;
                    assert(holders[i] == holders[holders.len() - 1]);
                }
            }
        }
        lemma_set_disjoint_lens(s.tokens_of_any(earlier), s.tokens_of(last));
        assert(s.tokens_of_any(holders) =~= s.tokens_of_any(earlier) + s.tokens_of(last)) by {
            assert forall|t: u128|
                s.tokens_of_any(holders).contains(t) <==> (s.tokens_of_any(earlier) + s.tokens_of(
                    last,
                )).contains(t) by {
                if s.token_owner.contains_key(t) {
                    let h = s.token_owner[t];
                    if holders.contains(h) {
                        let i = choose|i: int| 0 <= i < holders.len() && holders[i] == h;
                        if i < earlier.len() {
                            assert(earlier[i] == h);
                        }
                    }
                    if earlier.contains(h) {
                        let i = choose|i: int| 0 <= i < earlier.len() && earlier[i] == h;
                        assert(holders[i] == h);
                    }
                    if h == last {
                        assert(holders[holders.len() - 1] == h);
                    }
                }
            }
        }
    }
}

// ----- Registration -----

/// The counter moves with the successful registrations and with nothing
/// else: after a sequence of calls it has grown by the number of
/// registrations that succeeded.
pub proof fn law_counter_counts_registrations(s: RegistryState, calls: Seq<Invocation>)
    requires
        s.permits_all(calls),
    ensures
        s.after_all(calls).next_token_id == s.next_token_id + s.registrations(calls),
    decreases calls.len(),
{
    if calls.len() > 0 {
        law_counter_counts_registrations(s, calls.drop_last());
    }
}

/// Token ids are handed out in sequence. A registration returns the
/// counter's value; if `first` and `second` are successful registrations,
/// and no registration among the calls `between` them succeeds, then the
/// second returns one plus what the first returned.
pub proof fn law_token_ids_are_sequential(
    s: RegistryState,
    first: Invocation,
    between: Seq<Invocation>,
    second: Invocation,
)
    requires
        s.permits(first),
        s.registers(first),
        s.after(first).permits_all(between),
        s.after(first).registrations(between) == 0,
        s.after(first).after_all(between).registers(second),
    ensures
        s.after(first).after_all(between).next_token_id == s.next_token_id + 1,
{
    law_counter_counts_registrations(s.after(first), between);
}

/// After a successful registration the new token's record holds the inputs,
/// version 1 and status `Active`; the caller is its issuer and its holder,
/// the ledger holds its version 1, and its subject hash, if it has one,
/// leads to it.
pub proof fn law_registered_record_holds_inputs(
    s: RegistryState,
    ctx: CallContext,
    dataset_uri: Seq<char>,
    payload_hash: [u8; 32],
    dataset_type: Seq<char>,
    granularity: Granularity,
    subject_id_hash: Option<[u8; 32]>,
)
    requires
        RegistryState::register_error(dataset_uri, dataset_type) is None,
    ensures
        ({
            let after = s.registered(
                ctx,
                dataset_uri,
                payload_hash,
                dataset_type,
                granularity,
                subject_id_hash,
            );
            let record = PassportView {
                token_id: s.next_token_id,
                issuer: ctx.caller,
                dataset_uri,
                payload_hash,
                dataset_type,
                version: 1,
                status: PassportStatus::Active,
                created_at: ctx.block_number,
                updated_at: ctx.block_number,
                granularity,
                subject_id_hash,
            };
            &&& after.get_passport(s.next_token_id) == Some(record)
            &&& after.owner_of(s.next_token_id) == Some(ctx.caller)
            &&& after.get_version(s.next_token_id, 1) == Some(record.ledger_entry(ctx.caller))
            &&& subject_id_hash matches Some(hash) ==> after.find_token_by_subject_id(hash) == Some(
                s.next_token_id,
            )
        }),
{
}

// ----- Validation -----

/// A registration with an empty dataset reference or an empty content type
/// fails with `InvalidInput` and leaves the state as it was.
pub proof fn law_registration_refuses_empty_strings(
    s: RegistryState,
    ctx: CallContext,
    dataset_uri: Seq<char>,
    payload_hash: [u8; 32],
    dataset_type: Seq<char>,
    granularity: Granularity,
    subject_id_hash: Option<[u8; 32]>,
)
    requires
        dataset_uri.len() == 0 || dataset_type.len() == 0,
    ensures
        RegistryState::register_error(dataset_uri, dataset_type) == Some(Error::InvalidInput),
        s.after(
            Invocation {
                ctx,
                call: Call::Register {
                    dataset_uri,
                    payload_hash,
                    dataset_type,
                    granularity,
                    subject_id_hash,
                },
            },
        ) == s,
{
}

/// An update by the issuer of a passport that is not revoked, with an empty
/// dataset reference or an empty content type, fails with `InvalidInput` and
/// leaves the state as it was.
pub proof fn law_update_refuses_empty_strings(
    s: RegistryState,
    ctx: CallContext,
    token_id: u128,
    dataset_uri: Seq<char>,
    payload_hash: [u8; 32],
    dataset_type: Seq<char>,
    subject_id_hash: Option<[u8; 32]>,
)
    requires
        s.passports.contains_key(token_id),
        s.passports[token_id].issuer == ctx.caller,
        s.passports[token_id].status != PassportStatus::Revoked,
        dataset_uri.len() == 0 || dataset_type.len() == 0,
    ensures
        s.update_error(ctx.caller, token_id, dataset_uri, dataset_type) == Some(
            Error::InvalidInput,
        ),
        s.after(
            Invocation {
                ctx,
                call: Call::Update {
                    token_id,
                    dataset_uri,
                    payload_hash,
                    dataset_type,
                    subject_id_hash,
                },
            },
        ) == s,
{
}

// ----- Versions -----

/// In a consistent registry the ledger entries of a token are numbered 1,
/// 2, 3 and so on, as many as its version says, and the history lists them
/// in that order.
pub proof fn law_history_is_numbered(s: RegistryState, token_id: u128, i: int)
    requires
        s.valid(),
        0 <= i < s.history(token_id).len(),
    ensures
        s.history(token_id).len() == s.version_count(token_id),
        s.history(token_id)[i].version == i + 1,
        s.get_version(token_id, (i + 1) as u32) == Some(s.history(token_id)[i]),
{
    assert(s.version_history.contains_key((token_id, (i + 1) as u32)));
}

/// A successful update raises the version by one and appends to the ledger
/// of its token one entry with the content supplied; the ledger of every
/// other token stays as it was.
pub proof fn law_update_appends_a_version(
    s: RegistryState,
    ctx: CallContext,
    token_id: u128,
    dataset_uri: Seq<char>,
    payload_hash: [u8; 32],
    dataset_type: Seq<char>,
    subject_id_hash: Option<[u8; 32]>,
)
    requires
        s.valid(),
        s.update_error(ctx.caller, token_id, dataset_uri, dataset_type) is None,
        s.passports[token_id].version < u32::MAX,
    ensures
        ({
            let after = s.updated(
                ctx,
                token_id,
                dataset_uri,
                payload_hash,
                dataset_type,
                subject_id_hash,
            );
            &&& after.version_count(token_id) == s.version_count(token_id) + 1
            &&& after.history(token_id) == s.history(token_id).push(
                VersionView {
                    version: (s.passports[token_id].version + 1) as u32,
                    dataset_uri,
                    payload_hash,
                    dataset_type,
                    updated_at: ctx.block_number,
                    updated_by: ctx.caller,
                },
            )
            &&& forall|other: u128|
                other != token_id ==> #[trigger] after.history(other) == s.history(other)
        }),
{
    let after = s.updated(ctx, token_id, dataset_uri, payload_hash, dataset_type, subject_id_hash);
    let entry = VersionView {
        version: (s.passports[token_id].version + 1) as u32,
        dataset_uri,
        payload_hash,
        dataset_type,
        updated_at: ctx.block_number,
        updated_by: ctx.caller,
    };
    assert(after.history(token_id) =~= s.history(token_id).push(entry));
    assert forall|other: u128| other != token_id implies #[trigger] after.history(other)
        == s.history(other) by {
        assert(after.history(other) =~= s.history(other));
    }
}

/// The history of a token records every update. After a sequence of calls,
/// the ledger of a registered token is what it was, followed by one entry
/// for each successful update of the token, in the order of the calls and
/// with the content that the call supplied; its version has grown by their
/// number.
pub proof fn law_history_records_every_update(
    s: RegistryState,
    calls: Seq<Invocation>,
    token_id: u128,
)
    requires
        s.valid(),
        s.permits_all(calls),
        s.passports.contains_key(token_id),
    ensures
        s.after_all(calls).passports.contains_key(token_id),
        s.after_all(calls).version_count(token_id) == s.version_count(token_id)
            + s.supplied_updates(calls, token_id).len(),
        s.after_all(calls).history(token_id) == s.history(token_id) + s.supplied_updates(
            calls,
            token_id,
        ),
    decreases calls.len(),
{
    if calls.len() == 0 {
        assert(s.history(token_id) + Seq::<VersionView>::empty() =~= s.history(token_id));
    } else {
        let before = s.after_all(calls.drop_last());
        let last = calls.last();
        let after = before.after(last);
        let earlier = s.supplied_updates(calls.drop_last(), token_id);
        law_history_records_every_update(s, calls.drop_last(), token_id);
        lemma_after_all_valid(s, calls.drop_last());
        if before.updates(last, token_id) {
            law_update_appends_a_version(
                before,
                last.ctx,
                token_id,
                last.call->Update_dataset_uri,
                last.call->Update_payload_hash,
                last.call->Update_dataset_type,
                last.call->Update_subject_id_hash,
            );
            let entry = RegistryState::supplied_entry(
                last,
                s.version_count(token_id) + earlier.len() + 1,
            );
            assert(after.history(token_id) == before.history(token_id).push(entry));
            assert((s.history(token_id) + earlier).push(entry) =~= s.history(token_id)
                + earlier.push(entry));
        } else {
            assert(after.passports.contains_key(token_id));
            assert(after.passports[token_id].version == before.passports[token_id].version);
            assert forall|v: u32| 1 <= v <= before.passports[token_id].version implies #[trigger]
                after.version_history[(token_id, v)] == before.version_history[(token_id, v)] by {
                assert(before.version_history.contains_key((token_id, v)));
            }
            assert(after.history(token_id) =~= before.history(token_id));
        }
    }
}

/// The history of a new token. After a registration and any sequence of
/// calls of which `n` are successful updates of the new token, the version
/// of the token is `n + 1` and its history has `n + 1` entries, numbered
/// from 1: the first holds what was registered, each of the others what
/// the update in its place supplied.
pub proof fn law_versions_count_updates(
    s: RegistryState,
    registration: Invocation,
    calls: Seq<Invocation>,
)
    requires
        s.valid(),
        s.permits(registration),
        s.registers(registration),
        s.after(registration).permits_all(calls),
    ensures
        ({
            let token_id = s.next_token_id;
            let start = s.after(registration);
            let end = start.after_all(calls);
            let supplied = start.supplied_updates(calls, token_id);
            let n = supplied.len();
            &&& end.version_count(token_id) == n + 1
            &&& end.history(token_id).len() == n + 1
            &&& end.history(token_id)[0] == PassportView::created(
                token_id,
                registration.ctx,
                registration.call->Register_dataset_uri,
                registration.call->Register_payload_hash,
                registration.call->Register_dataset_type,
                registration.call->Register_granularity,
                registration.call->Register_subject_id_hash,
            ).ledger_entry(registration.ctx.caller)
            &&& forall|i: int| 0 <= i < n ==> end.history(token_id)[i + 1] == supplied[i]
            &&& forall|i: int| 0 <= i <= n ==> (#[trigger] end.history(token_id)[i]).version == i + 1
        }),
{
    let token_id = s.next_token_id;
    let start = s.after(registration);
    let end = start.after_all(calls);
    lemma_after_valid(s, registration);
    law_history_records_every_update(start, calls, token_id);
    lemma_after_all_valid(start, calls);
    assert(start.history(token_id).len() == 1);
    assert forall|i: int| 0 <= i <= start.supplied_updates(calls, token_id).len() implies (
    #[trigger] end.history(token_id)[i]).version == i + 1 by {
        law_history_is_numbered(end, token_id, i);
    }
}

/// The ledger is append-only. An entry that was written is never changed
/// and never removed, whatever is called afterwards.
pub proof fn law_ledger_is_append_only(
    s: RegistryState,
    calls: Seq<Invocation>,
    token_id: u128,
    version: u32,
)
    requires
        s.valid(),
        s.permits_all(calls),
        s.get_version(token_id, version) is Some,
    ensures
        s.after_all(calls).get_version(token_id, version) == s.get_version(token_id, version),
    decreases calls.len(),
{
    if calls.len() > 0 {
        law_ledger_is_append_only(s, calls.drop_last(), token_id, version);
        lemma_after_all_valid(s, calls.drop_last());
    }
}

// ----- Subject index -----

/// The subject index follows the last writer and forgets nothing. After a
/// successful update that brings a subject hash, the hash leads to the
/// updated token; every other hash leads where it led before, the hash
/// that the record had before among them.
pub proof fn law_update_indexes_the_subject(
    s: RegistryState,
    ctx: CallContext,
    token_id: u128,
    dataset_uri: Seq<char>,
    payload_hash: [u8; 32],
    dataset_type: Seq<char>,
    subject_id_hash: Option<[u8; 32]>,
)
    ensures
        ({
            let after = s.updated(
                ctx,
                token_id,
                dataset_uri,
                payload_hash,
                dataset_type,
                subject_id_hash,
            );
            &&& subject_id_hash matches Some(hash) ==> after.find_token_by_subject_id(hash) == Some(
                token_id,
            )
            &&& forall|other: [u8; 32]|
                subject_id_hash != Some(other) ==> #[trigger] after.find_token_by_subject_id(other)
                    == s.find_token_by_subject_id(other)
        }),
{
}

// ----- What never changes -----

/// What a registration fixed stays fixed. After any sequence of calls a
/// registered token is still registered, and its granularity, its issuer,
/// its id and its time of creation are what they were.
pub proof fn law_granularity_never_changes(s: RegistryState, calls: Seq<Invocation>, token_id: u128)
    requires
        s.valid(),
        s.permits_all(calls),
        s.passports.contains_key(token_id),
    ensures
        s.after_all(calls).passports.contains_key(token_id),
        s.after_all(calls).passports[token_id].granularity == s.passports[token_id].granularity,
        s.after_all(calls).passports[token_id].issuer == s.passports[token_id].issuer,
        s.after_all(calls).passports[token_id].token_id == s.passports[token_id].token_id,
        s.after_all(calls).passports[token_id].created_at == s.passports[token_id].created_at,
    decreases calls.len(),
{
    if calls.len() > 0 {
        law_granularity_never_changes(s, calls.drop_last(), token_id);
        lemma_after_all_valid(s, calls.drop_last());
    }
}

// ----- Issuer authority -----

/// Only the issuer updates or revokes. For a registered token, an update
/// or a revocation by any other caller fails with `Unauthorized`, and the
/// state, the record with it, stays as it was.
pub proof fn law_only_the_issuer_updates_or_revokes(
    s: RegistryState,
    ctx: CallContext,
    token_id: u128,
    dataset_uri: Seq<char>,
    payload_hash: [u8; 32],
    dataset_type: Seq<char>,
    subject_id_hash: Option<[u8; 32]>,
)
    requires
        s.passports.contains_key(token_id),
        s.passports[token_id].issuer != ctx.caller,
    ensures
        s.update_error(ctx.caller, token_id, dataset_uri, dataset_type) == Some(
            Error::Unauthorized,
        ),
        s.revoke_error(ctx.caller, token_id) == Some(Error::Unauthorized),
        s.after(
            Invocation {
                ctx,
                call: Call::Update {
                    token_id,
                    dataset_uri,
                    payload_hash,
                    dataset_type,
                    subject_id_hash,
                },
            },
        ) == s,
        s.after(Invocation { ctx, call: Call::Revoke { token_id } }) == s,
{
}

// ----- Revocation -----

/// What follows a revocation. Once the issuer has revoked a passport, its
/// updates fail with `PassportRevoked`, whatever content they bring; a
/// transfer of the token fails with `PassportRevoked`, whoever calls and
/// whoever is named as the sender; and a second revocation fails with
/// `AlreadyRevoked`.
pub proof fn law_revoked_passport_refuses(
    s: RegistryState,
    ctx: CallContext,
    token_id: u128,
    caller: Address,
    from: Address,
    dataset_uri: Seq<char>,
    dataset_type: Seq<char>,
)
    requires
        s.revoke_error(ctx.caller, token_id) is None,
    ensures
        ({
            let revoked = s.revoked(ctx, token_id);
            &&& revoked.passports[token_id].status == PassportStatus::Revoked
            &&& revoked.update_error(ctx.caller, token_id, dataset_uri, dataset_type) == Some(
                Error::PassportRevoked,
            )
            &&& revoked.transfer_error(caller, from, token_id) == Some(Error::PassportRevoked)
            &&& revoked.revoke_error(ctx.caller, token_id) == Some(Error::AlreadyRevoked)
        }),
{
}

/// Revocation is final. Once a passport is revoked, no sequence of calls
/// changes its record or its holder: it stays revoked.
pub proof fn law_revocation_is_final(s: RegistryState, calls: Seq<Invocation>, token_id: u128)
    requires
        s.valid(),
        s.permits_all(calls),
        s.passports.contains_key(token_id),
        s.passports[token_id].status == PassportStatus::Revoked,
    ensures
        s.after_all(calls).passports.contains_key(token_id),
        s.after_all(calls).passports[token_id] == s.passports[token_id],
        s.after_all(calls).owner_of(token_id) == s.owner_of(token_id),
    decreases calls.len(),
{
    if calls.len() > 0 {
        law_revocation_is_final(s, calls.drop_last(), token_id);
        lemma_after_all_valid(s, calls.drop_last());
    }
}

// ----- Approval and transfer -----

/// An approved account can transfer the token, once. Let `approved` be
/// approved for a token whose passport is not revoked, and let it then
/// transfer the token from its holder to `to`. The transfer succeeds and
/// `to` holds the token; if `to` is not the holder, the holder counts one
/// token less and `to` one more; and the approval is gone: unless
/// `approved` is `to` itself or an operator of `to`, a further transfer
/// from `to` that it calls fails with `NotApproved`.
pub proof fn law_approved_account_transfers_once(
    s: RegistryState,
    caller: Address,
    approved: Address,
    to: Address,
    token_id: u128,
)
    requires
        s.valid(),
        s.approve_error(caller, approved, token_id) is None,
        s.passports[token_id].status != PassportStatus::Revoked,
    ensures
        ({
            let owner = s.token_owner[token_id];
            let granted = s.approved(approved, token_id);
            let moved = granted.transferred(owner, to, token_id);
            &&& granted.get_approved(token_id) == Some(approved)
            &&& granted.transfer_error(approved, owner, token_id) is None
            &&& moved.owner_of(token_id) == Some(to)
            &&& to != owner ==> moved.balance_of(owner) == s.balance_of(owner) - 1
            &&& to != owner ==> moved.balance_of(to) == s.balance_of(to) + 1
            &&& moved.get_approved(token_id) is None
            &&& (approved != to && !s.is_approved_for_all(to, approved)) ==> moved.transfer_error(
                approved,
                to,
                token_id,
            ) == Some(Error::NotApproved)
        }),
{
    let owner = s.token_owner[token_id];
    let granted = s.approved(approved, token_id);
    lemma_approved_valid(s, caller, approved, token_id);
    lemma_transferred_valid(granted, approved, owner, to, token_id);
}

} // verus!
