//! What the calls do not depend on: two contracts that differ in nothing else answer alike.
use crate::address::Address;
use crate::attestation::{admission_refusal, item_key, item_refusal, WeighedItem};
use crate::call::Call;
use crate::effect::Outcome;
use crate::error::Revert;
use crate::lifecycle::PenaltyQuery;
use crate::state::{CredenceBond, State};
use crate::types::{Attestation, DedupModel, IdentityBond};
use vstd::prelude::*;

verus! {

/// The early-exit penalty is asked for on the same terms whether or not the bond rolls, whether or
/// not it is active, and whatever notice was given or is due.
pub proof fn law_penalty_is_blind_to_rolling(
    c: CredenceBond,
    d: CredenceBond,
    call: Call,
    identity: Address,
    amount: i128,
    is_rolling: bool,
    active: bool,
    withdrawal_requested_at: u64,
    notice_period_duration: u64,
    r: Result<PenaltyQuery, Revert>,
    q: Result<PenaltyQuery, Revert>,
)
    requires
        call_ensures(CredenceBond::early_exit_query, (&c, &call, identity, amount), r),
        call_ensures(CredenceBond::early_exit_query, (&d, &call, identity, amount), q),
        c.bond is Some,
        d@ == (State {
            bond: Some(
                IdentityBond {
                    is_rolling,
                    active,
                    withdrawal_requested_at,
                    notice_period_duration,
                    ..c.bond->0
                },
            ),
            ..c@
        }),
    ensures
        r is Ok <==> q is Ok,
        r is Ok ==> r->Ok_0 == q->Ok_0,
        r is Err ==> r->Err_0 == q->Err_0,
{
}

/// Attesters are admitted by the registrations and the nonces alone.
proof fn lemma_admission_reads(s: State, t: State, call: Call, items: Seq<WeighedItem>, k: int)
    requires
        0 <= k <= items.len(),
        s.attesters == t.attesters,
        s.nonces == t.nonces,
    ensures
        admission_refusal(s, call, items, k) == admission_refusal(t, call, items, k),
    decreases items.len() - k,
{
    if k < items.len() {
        assert(item_refusal(s, call, items[k].item) == item_refusal(t, call, items[k].item));
        lemma_admission_reads(s, t, call, items, k + 1);
    }
}

/// A batch is admitted or refused alike whatever attestations stand, of its subject or of others,
/// and however many: only the triples that are taken bar it, and of these only its own.
pub proof fn law_batch_is_blind_to_other_attestations(
    c: &mut CredenceBond,
    d: &mut CredenceBond,
    call: Call,
    subject: Address,
    items: Vec<WeighedItem>,
    r: Result<Outcome<Vec<Attestation>>, Revert>,
    q: Result<Outcome<Vec<Attestation>>, Revert>,
)
    requires
        call_ensures(CredenceBond::add_attestation_batch, (c, &call, subject, &items), r),
        call_ensures(CredenceBond::add_attestation_batch, (d, &call, subject, &items), q),
        old(d)@ == (State {
            attestations: old(d)@.attestations,
            subject_attestations: old(d)@.subject_attestations,
            subject_attestation_counts: old(d)@.subject_attestation_counts,
            dedup_keys: old(d)@.dedup_keys,
            ..old(c)@
        }),
        forall|i: int|
            0 <= i < items@.len() ==> {
                let key = DedupModel {
                    verifier: (#[trigger] items@[i]).item.attester,
                    identity: subject,
                    attestation_data: items@[i].item.attestation_data@,
                };
                old(c)@.dedup_keys.contains_key(key) <==> old(d)@.dedup_keys.contains_key(key)
            },
    ensures
        r is Ok <==> q is Ok,
        r is Err ==> r->Err_0 == q->Err_0,
        r is Ok ==> r->Ok_0.value@.len() == q->Ok_0.value@.len(),
        r is Ok ==> forall|i: int|
            0 <= i < r->Ok_0.value@.len() ==> (#[trigger] r->Ok_0.value@[i])@
                == q->Ok_0.value@[i]@,
{
    lemma_admission_reads(old(c)@, old(d)@, call, items@, 0);
    assert forall|i: int| 0 <= i < items@.len() implies (old(c)@.dedup_keys.contains_key(
        item_key(subject, (#[trigger] items@[i]).item),
    ) <==> old(d)@.dedup_keys.contains_key(item_key(subject, items@[i].item))) by {}
}

/// A bond of which nothing is left is liquidated at one time as at any other, and whatever its
/// start and its duration.
pub proof fn law_spent_bond_is_liquidated_at_any_time(
    c: &mut CredenceBond,
    d: &mut CredenceBond,
    call: Call,
    other: Call,
    admin: Address,
    r: Result<Outcome<IdentityBond>, Revert>,
    q: Result<Outcome<IdentityBond>, Revert>,
)
    requires
        call_ensures(CredenceBond::liquidate_begin, (c, &call, admin), r),
        call_ensures(CredenceBond::liquidate_begin, (d, &other, admin), q),
        call.signers@ == other.signers@,
        old(c)@.bond is Some && old(d)@.bond is Some,
        old(c)@.bond->0.slashed_amount >= old(c)@.bond->0.bonded_amount,
        old(d)@ == (State {
            bond: Some(
                IdentityBond {
                    bond_start: old(d)@.bond->0.bond_start,
                    bond_duration: old(d)@.bond->0.bond_duration,
                    is_rolling: old(d)@.bond->0.is_rolling,
                    ..old(c)@.bond->0
                },
            ),
            ..old(c)@
        }),
    ensures
        r is Ok <==> q is Ok,
        r is Err ==> r->Err_0 == q->Err_0,
        final(c)@.liquidated == final(d)@.liquidated,
        final(c)@.bond->0.active == final(d)@.bond->0.active,
{
}

/// A bond that does not roll is closed by its owner at one time as at any other, and whatever its
/// start, its duration and its notice period.
pub proof fn law_fixed_bond_is_closed_at_any_time(
    c: &mut CredenceBond,
    d: &mut CredenceBond,
    call: Call,
    other: Call,
    identity: Address,
    r: Result<Outcome<i128>, Revert>,
    q: Result<Outcome<i128>, Revert>,
)
    requires
        call_ensures(CredenceBond::withdraw_bond_begin, (c, &call, identity), r),
        call_ensures(CredenceBond::withdraw_bond_begin, (d, &other, identity), q),
        call.signers@ == other.signers@,
        old(c)@.bond is Some && old(d)@.bond is Some,
        !old(c)@.bond->0.is_rolling,
        old(d)@ == (State {
            bond: Some(
                IdentityBond {
                    bond_start: old(d)@.bond->0.bond_start,
                    bond_duration: old(d)@.bond->0.bond_duration,
                    notice_period_duration: old(d)@.bond->0.notice_period_duration,
                    ..old(c)@.bond->0
                },
            ),
            ..old(c)@
        }),
    ensures
        r is Ok <==> q is Ok,
        r is Ok ==> r->Ok_0.value == q->Ok_0.value,
        r is Err ==> r->Err_0 == q->Err_0,
{
}

/// What a bond pays when it is closed is the same before and after an extension of its duration.
pub proof fn law_extension_leaves_what_is_owed(
    c: &mut CredenceBond,
    d: &mut CredenceBond,
    e: &mut CredenceBond,
    call: Call,
    identity: Address,
    additional: u64,
    close: Call,
    owner: Address,
    extended: Result<Outcome<IdentityBond>, Revert>,
    r: Result<Outcome<i128>, Revert>,
    q: Result<Outcome<i128>, Revert>,
)
    requires
        call_ensures(CredenceBond::extend_duration, (c, &call, identity, additional), extended),
        call_ensures(CredenceBond::withdraw_bond, (d, &close, owner), r),
        call_ensures(CredenceBond::withdraw_bond, (e, &close, owner), q),
        old(d)@ == old(c)@,
        old(e)@ == final(c)@,
    ensures
        r is Ok <==> q is Ok,
        r is Ok ==> r->Ok_0.value == q->Ok_0.value,
        r is Err ==> r->Err_0 == q->Err_0,
{
}

} // verus!
