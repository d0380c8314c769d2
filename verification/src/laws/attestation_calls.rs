//! What each call on attesters and attestations does, told of what it is handed and what it gives.
use crate::address::Address;
use crate::attestation::{
    admission_refusal, batch_upto, item_key, item_refusal, other_than, repeats_attester,
    total_weight, weighing_refusal, WeighedItem,
};
use crate::call::Call;
use crate::effect::{Effect, Event, Outcome};
use crate::error::{ContractError, Revert, Verdict};
use crate::laws::{by_admin, coded, comes_to, keep_alive, not_by_admin, signed};
use crate::state::{CredenceBond, State};
use crate::types::{Attestation, AttestationModel, DedupModel, WeightConfig};
use vstd::prelude::*;

verus! {

/// Whether an address is on the list of attesters.
pub open spec fn attests(s: State, a: Address) -> bool {
    s.attesters.contains_key(a) && s.attesters[a]
}

/// The nonce that is due from an address: the one on record, or zero.
pub open spec fn due(s: State, a: Address) -> u64 {
    if s.nonces.contains_key(a) {
        s.nonces[a]
    } else {
        0
    }
}

/// The list of a subject, empty where there is none.
pub open spec fn listed(s: State, subject: Address) -> Seq<u64> {
    if s.subject_attestations.contains_key(subject) {
        s.subject_attestations[subject]
    } else {
        Seq::empty()
    }
}

/// The count of a subject, zero where there is none.
pub open spec fn counted(s: State, subject: Address) -> u32 {
    if s.subject_attestation_counts.contains_key(subject) {
        s.subject_attestation_counts[subject]
    } else {
        0
    }
}

/// A count that grows by `n`, and stops at the largest there is.
pub open spec fn grown(count: u32, n: int) -> u32 {
    if count + n > u32::MAX {
        u32::MAX
    } else {
        (count + n) as u32
    }
}

/// Whether the standing administrator lets a call through.
pub open spec fn admin_signs(s: State, call: Call) -> bool {
    !s.paused && s.admin is Some && signed(call, s.admin->0)
}

/// Why the standing administrator does not let a call through.
pub open spec fn admin_does_not_sign(s: State) -> Revert {
    if s.paused {
        Revert::Paused
    } else if s.admin is None {
        coded(ContractError::NotInitialized)
    } else {
        Revert::Unauthorized
    }
}

/// Attesters come and go on the administrator's signature: the one that is named, and no other.
pub proof fn law_attesters_come_and_go(
    c: &mut CredenceBond,
    d: &mut CredenceBond,
    call: Call,
    attester: Address,
    r: Result<Outcome<()>, Revert>,
    q: Result<Outcome<()>, Revert>,
)
    requires
        call_ensures(CredenceBond::register_attester, (c, &call, attester), r),
        call_ensures(CredenceBond::unregister_attester, (d, &call, attester), q),
    ensures
        comes_to(
            old(c)@,
            final(c)@,
            r,
            admin_signs(old(c)@, call),
            admin_does_not_sign(old(c)@),
            State { attesters: old(c)@.attesters.insert(attester, true), ..old(c)@ },
            (),
            seq![Effect::Publish(Event::AttesterRegistered { attester })],
        ),
        comes_to(
            old(d)@,
            final(d)@,
            q,
            admin_signs(old(d)@, call),
            admin_does_not_sign(old(d)@),
            State { attesters: old(d)@.attesters.remove(attester), ..old(d)@ },
            (),
            seq![Effect::Publish(Event::AttesterUnregistered { attester })],
        ),
{
}

/// Attesters, nonces, attestations, lists and counts are read as they are held.
pub proof fn law_attestations_are_read_as_held(
    c: CredenceBond,
    who: Address,
    id: u64,
    attester: bool,
    nonce: u64,
    r: Result<Outcome<Attestation>, Revert>,
    list: Outcome<Vec<u64>>,
    count: Outcome<u32>,
)
    requires
        call_ensures(CredenceBond::is_attester, (&c, &who), attester),
        call_ensures(CredenceBond::get_nonce, (&c, &who), nonce),
        call_ensures(CredenceBond::get_attestation, (&c, id), r),
        call_ensures(CredenceBond::get_subject_attestations, (&c, &who), list),
        call_ensures(CredenceBond::get_subject_attestation_count, (&c, &who), count),
    ensures
        attester <==> attests(c@, who),
        nonce == due(c@, who),
        r is Ok <==> c.attestations@.contains_key(id),
        r is Ok ==> r->Ok_0.value@ == c.attestations@[id],
        r is Ok ==> r->Ok_0.effects@ =~= seq![keep_alive()],
        r is Err ==> r->Err_0 == coded(ContractError::AttestationNotFound),
        list.value@ == listed(c@, who) && list.effects@ =~= seq![keep_alive()],
        count.value == counted(c@, who) && count.effects@ =~= seq![keep_alive()],
{
}

/// The administrator sets stakes and the weight configuration, where the weighing rules agree,
/// to the values given, and nothing else.
pub proof fn law_weights_are_set(
    c: &mut CredenceBond,
    d: &mut CredenceBond,
    call: Call,
    admin: Address,
    attester: Address,
    amount: i128,
    multiplier_bps: u32,
    max_weight: u32,
    verdict: Verdict,
    r: Result<Outcome<()>, Revert>,
    q: Result<Outcome<()>, Revert>,
)
    requires
        call_ensures(
            CredenceBond::set_attester_stake,
            (c, &call, admin, attester, amount, verdict),
            r,
        ),
        call_ensures(
            CredenceBond::set_weight_config,
            (d, &call, admin, multiplier_bps, max_weight, verdict),
            q,
        ),
    ensures
        comes_to(
            old(c)@,
            final(c)@,
            r,
            by_admin(old(c)@, call, admin) && verdict is Ok,
            if !by_admin(old(c)@, call, admin) {
                not_by_admin(old(c)@, call, admin)
            } else {
                verdict->Err_0
            },
            State {
                attester_stakes: old(c)@.attester_stakes.insert(attester, amount),
                ..old(c)@
            },
            (),
            seq![],
        ),
        comes_to(
            old(d)@,
            final(d)@,
            q,
            by_admin(old(d)@, call, admin) && verdict is Ok,
            if !by_admin(old(d)@, call, admin) {
                not_by_admin(old(d)@, call, admin)
            } else {
                verdict->Err_0
            },
            State { weight_config: WeightConfig { multiplier_bps, max_weight }, ..old(d)@ },
            (),
            seq![],
        ),
{
}

/// A registered attester who signs, with the nonce that is due and below the last, records a
/// triple that is not on record, where it can be weighed and the ids have not run out. It gets
/// the next id, is what was handed in, unrevoked and of now; its triple is taken, its id comes
/// last on its subject's list, the count and the nonce grow by one, and nothing else changes.
pub proof fn law_attestation_is_recorded_as_made(
    c: &mut CredenceBond,
    call: Call,
    attester: Address,
    subject: Address,
    data: Vec<u8>,
    nonce: u64,
    weight: Result<u32, Revert>,
    r: Result<Outcome<Attestation>, Revert>,
)
    requires
        call_ensures(
            CredenceBond::add_attestation,
            (c, &call, attester, subject, data, nonce, weight),
            r,
        ),
    ensures
        ({
            let s = old(c)@;
            let t = final(c)@;
            let key = DedupModel { verifier: attester, identity: subject, attestation_data: data@ };
            if !s.paused && signed(call, attester) && attests(s, attester) && nonce == due(
                s,
                attester,
            ) && nonce < u64::MAX && !s.dedup_keys.contains_key(key) && s.attestation_counter
                < u64::MAX && weight is Ok {
                let a = r->Ok_0.value@;
                &&& r is Ok
                &&& a.id == s.attestation_counter
                &&& a.verifier == attester && a.identity == subject && a.attestation_data == data@
                &&& a.timestamp == call.now
                &&& a.weight == weight->Ok_0
                &&& !a.revoked
                &&& t.attestation_counter == s.attestation_counter + 1
                &&& due(t, attester) == nonce + 1
                &&& t == (State {
                    attestations: s.attestations.insert(a.id, a),
                    attestation_counter: t.attestation_counter,
                    dedup_keys: s.dedup_keys.insert(key, true),
                    nonces: s.nonces.insert(attester, due(t, attester)),
                    subject_attestations: s.subject_attestations.insert(
                        subject,
                        listed(s, subject).push(a.id),
                    ),
                    subject_attestation_counts: s.subject_attestation_counts.insert(
                        subject,
                        grown(counted(s, subject), 1),
                    ),
                    ..s
                })
                &&& r->Ok_0.effects@ =~= seq![
                    keep_alive(),
                    Effect::Publish(Event::AttestationAdded { subject, id: a.id, attester }),
                    Effect::CheckConsistency { subject: Some(subject) },
                ]
            } else {
                &&& r is Err
                &&& t == s
                &&& r->Err_0 == (if s.paused {
                    Revert::Paused
                } else if !signed(call, attester) {
                    Revert::Unauthorized
                } else if !attests(s, attester) {
                    coded(ContractError::UnauthorizedAttester)
                } else if nonce != due(s, attester) {
                    Revert::InvalidNonce
                } else if s.dedup_keys.contains_key(key) {
                    coded(ContractError::DuplicateAttestation)
                } else if nonce == u64::MAX || s.attestation_counter == u64::MAX {
                    coded(ContractError::Overflow)
                } else {
                    weight->Err_0
                })
            }
        }),
{
}

/// A revocation by its own attester, who signs with the nonce that is due and below the last,
/// marks a live attestation revoked; its triple is free, its id is off its subject's list, the
/// count goes down and the nonce up by one, and nothing else changes.
pub proof fn law_revocation_strikes_off(
    c: &mut CredenceBond,
    call: Call,
    attester: Address,
    id: u64,
    nonce: u64,
    r: Result<Outcome<()>, Revert>,
)
    requires
        call_ensures(CredenceBond::revoke_attestation, (c, &call, attester, id, nonce), r),
    ensures
        ({
            let s = old(c)@;
            let a = s.attestations[id];
            let key = DedupModel {
                verifier: a.verifier,
                identity: a.identity,
                attestation_data: a.attestation_data,
            };
            let count = counted(s, a.identity);
            comes_to(
                s,
                final(c)@,
                r,
                !s.paused && signed(call, attester) && nonce == due(s, attester) && nonce
                    < u64::MAX && s.attestations.contains_key(id) && a.verifier == attester
                    && !a.revoked,
                if s.paused {
                    Revert::Paused
                } else if !signed(call, attester) {
                    Revert::Unauthorized
                } else if nonce != due(s, attester) {
                    Revert::InvalidNonce
                } else if !s.attestations.contains_key(id) {
                    coded(ContractError::AttestationNotFound)
                } else if a.verifier != attester {
                    coded(ContractError::NotOriginalAttester)
                } else if a.revoked {
                    coded(ContractError::AttestationAlreadyRevoked)
                } else {
                    coded(ContractError::Overflow)
                },
                State {
                    attestations: s.attestations.insert(
                        id,
                        AttestationModel { revoked: true, ..a },
                    ),
                    dedup_keys: s.dedup_keys.remove(key),
                    nonces: s.nonces.insert(attester, (nonce + 1) as u64),
                    subject_attestations: s.subject_attestations.insert(
                        a.identity,
                        listed(s, a.identity).filter(|v: u64| v != id),
                    ),
                    subject_attestation_counts: s.subject_attestation_counts.insert(
                        a.identity,
                        if count > 0 {
                            (count - 1) as u32
                        } else {
                            0
                        },
                    ),
                    ..s
                },
                (),
                seq![
                    keep_alive(),
                    keep_alive(),
                    Effect::Publish(
                        Event::AttestationRevoked { subject: a.identity, id, attester },
                    ),
                    Effect::CheckConsistency { subject: Some(a.identity) },
                ],
            )
        }),
{
    assert(other_than(id) =~= |v: u64| v != id);
}

/// The weight of the first `k` items of a batch, together.
pub open spec fn weight_upto(items: Seq<WeighedItem>, k: int) -> int
    decreases k,
{
    if k <= 0 {
        0
    } else {
        weight_upto(items, k - 1) + items[k - 1].weight->Ok_0
    }
}

/// Whether the attesters of a batch are distinct.
pub open spec fn distinct_attesters(items: Seq<WeighedItem>) -> bool {
    forall|i: int, j: int|
        0 <= i < j < items.len() ==> (#[trigger] items[i]).item.attester != (
        #[trigger] items[j]).item.attester
}

/// Whether the attester of an item signed, is registered, and hands in the nonce that is due.
pub open spec fn item_admitted(s: State, call: Call, w: WeighedItem) -> bool {
    signed(call, w.item.attester) && attests(s, w.item.attester) && w.item.nonce == due(
        s,
        w.item.attester,
    )
}

/// Why the attester of an item is not admitted.
pub open spec fn item_not_admitted(s: State, call: Call, w: WeighedItem) -> Revert {
    if !signed(call, w.item.attester) {
        Revert::Unauthorized
    } else if !attests(s, w.item.attester) {
        coded(ContractError::UnauthorizedAttester)
    } else {
        Revert::InvalidNonce
    }
}

/// The triple of an item.
pub open spec fn triple(subject: Address, w: WeighedItem) -> DedupModel {
    DedupModel {
        verifier: w.item.attester,
        identity: subject,
        attestation_data: w.item.attestation_data@,
    }
}

/// Whether all attesters of a batch are admitted.
pub open spec fn all_admitted(s: State, call: Call, items: Seq<WeighedItem>) -> bool {
    forall|i: int| 0 <= i < items.len() ==> item_admitted(s, call, #[trigger] items[i])
}

/// The first item of a batch whose attester is not admitted.
pub open spec fn first_not_admitted(
    s: State,
    call: Call,
    items: Seq<WeighedItem>,
    k: int,
) -> bool {
    &&& 0 <= k < items.len()
    &&& !item_admitted(s, call, items[k])
    &&& forall|i: int| 0 <= i < k ==> item_admitted(s, call, #[trigger] items[i])
}

/// Whether no triple of a batch is on record.
pub open spec fn none_on_record(s: State, subject: Address, items: Seq<WeighedItem>) -> bool {
    forall|i: int|
        0 <= i < items.len() ==> !s.dedup_keys.contains_key(triple(subject, #[trigger] items[i]))
}

/// Whether all items of a batch can be weighed.
pub open spec fn all_weighed(items: Seq<WeighedItem>) -> bool {
    forall|i: int| 0 <= i < items.len() ==> (#[trigger] items[i]).weight is Ok
}

/// The first item of a batch that cannot be weighed.
pub open spec fn first_not_weighed(items: Seq<WeighedItem>, k: int) -> bool {
    &&& 0 <= k < items.len()
    &&& items[k].weight is Err
    &&& forall|i: int| 0 <= i < k ==> (#[trigger] items[i]).weight is Ok
}

/// Whether all nonces of a batch are below the last.
pub open spec fn nonces_below_last(items: Seq<WeighedItem>) -> bool {
    forall|i: int| 0 <= i < items.len() ==> (#[trigger] items[i]).item.nonce < u64::MAX
}

/// Whether a batch is admitted.
pub open spec fn batch_admitted(
    s: State,
    call: Call,
    subject: Address,
    items: Seq<WeighedItem>,
) -> bool {
    &&& !s.paused
    &&& 0 < items.len() <= 64
    &&& distinct_attesters(items)
    &&& all_admitted(s, call, items)
    &&& none_on_record(s, subject, items)
    &&& all_weighed(items)
    &&& weight_upto(items, items.len() as int) <= s.weight_config.max_weight
    &&& nonces_below_last(items)
    &&& s.attestation_counter + items.len() <= u64::MAX
}

/// The weights of a batch add up to its total.
proof fn lemma_weight_upto(items: Seq<WeighedItem>, k: int)
    ensures
        weight_upto(items, k) == total_weight(items, k),
    decreases k,
{
    if k > 0 {
        lemma_weight_upto(items, k - 1);
    }
}

/// The attesters of a batch are gone through in order: either all from the `k`th on are admitted,
/// or the first that is not gives the reason.
proof fn lemma_admission_in_order(s: State, call: Call, items: Seq<WeighedItem>, k: int)
    requires
        0 <= k <= items.len(),
        forall|i: int| 0 <= i < k ==> item_admitted(s, call, #[trigger] items[i]),
    ensures
        admission_refusal(s, call, items, k) is None <==> all_admitted(s, call, items),
        admission_refusal(s, call, items, k) is Some ==> exists|j: int|
            first_not_admitted(s, call, items, j) && admission_refusal(s, call, items, k) == Some(
                item_not_admitted(s, call, #[trigger] items[j]),
            ),
    decreases items.len() - k,
{
    if k < items.len() {
        if item_refusal(s, call, items[k].item) is None {
            assert(item_admitted(s, call, items[k]));
            assert forall|i: int| 0 <= i < k + 1 implies item_admitted(
                s,
                call,
                #[trigger] items[i],
            ) by {
                if i < k {
                    assert(item_admitted(s, call, items[i]));
                }
            }
            lemma_admission_in_order(s, call, items, k + 1);
        } else {
            assert(first_not_admitted(s, call, items, k));
            assert(!all_admitted(s, call, items)) by {
                if all_admitted(s, call, items) {
                    assert(item_admitted(s, call, items[k]));
                }
            }
        }
    }
}

/// The items of a batch are weighed in order: either all from the `k`th on can be, or the first
/// that cannot gives the reason.
proof fn lemma_weighing_in_order(items: Seq<WeighedItem>, k: int)
    requires
        0 <= k <= items.len(),
        forall|i: int| 0 <= i < k ==> (#[trigger] items[i]).weight is Ok,
    ensures
        weighing_refusal(items, k) is None <==> all_weighed(items),
        weighing_refusal(items, k) is Some ==> exists|j: int|
            first_not_weighed(items, j) && weighing_refusal(items, k) == Some(
                (#[trigger] items[j]).weight->Err_0,
            ),
    decreases items.len() - k,
{
    if k < items.len() {
        if items[k].weight is Ok {
            lemma_weighing_in_order(items, k + 1);
        } else {
            assert(first_not_weighed(items, k));
        }
    }
}

/// What a batch changes up to its `k`th item.
pub open spec fn recorded_upto(
    s: State,
    t: State,
    call: Call,
    subject: Address,
    items: Seq<WeighedItem>,
    k: int,
) -> bool {
    &&& t == (State {
        attestations: t.attestations,
        attestation_counter: t.attestation_counter,
        dedup_keys: t.dedup_keys,
        nonces: t.nonces,
        subject_attestations: t.subject_attestations,
        subject_attestation_counts: t.subject_attestation_counts,
        ..s
    })
    &&& t.attestation_counter == s.attestation_counter + k
    &&& forall|id: u64|
        id < s.attestation_counter || id >= s.attestation_counter + k ==> (
        #[trigger] t.attestations.contains_key(id) <==> s.attestations.contains_key(id))
            && t.attestations[id] == s.attestations[id]
    &&& forall|j: int|
        0 <= j < k ==> {
            let id = (s.attestation_counter + j) as u64;
            &&& t.attestations.contains_key(id)
            &&& t.attestations[id] == (AttestationModel {
                id,
                verifier: (#[trigger] items[j]).item.attester,
                identity: subject,
                timestamp: call.now,
                weight: items[j].weight->Ok_0,
                attestation_data: items[j].item.attestation_data@,
                revoked: false,
            })
        }
    &&& forall|j: int|
        0 <= j < k ==> t.dedup_keys.contains_key(triple(subject, #[trigger] items[j]))
    &&& forall|key: DedupModel| #[trigger]
        t.dedup_keys.contains_key(key) ==> s.dedup_keys.contains_key(key) || exists|j: int|
            0 <= j < k && key == triple(subject, #[trigger] items[j])
    &&& forall|key: DedupModel|
        s.dedup_keys.contains_key(key) ==> #[trigger] t.dedup_keys.contains_key(key)
    &&& forall|j: int|
        0 <= j < k ==> due(t, (#[trigger] items[j]).item.attester) == items[j].item.nonce + 1
    &&& forall|a: Address|
        (forall|j: int| 0 <= j < k ==> (#[trigger] items[j]).item.attester != a) ==> #[trigger] due(
            t,
            a,
        ) == due(s, a)
    &&& listed(t, subject) =~= listed(s, subject) + Seq::new(
        k as nat,
        |j: int| (s.attestation_counter + j) as u64,
    )
    &&& counted(t, subject) == grown(counted(s, subject), k)
    &&& forall|other: Address|
        other != subject ==> #[trigger] listed(t, other) == listed(s, other)
    &&& forall|other: Address|
        other != subject ==> #[trigger] counted(t, other) == counted(s, other)
}

/// A batch puts its items on record one after the other.
proof fn lemma_recorded_upto(
    s: State,
    call: Call,
    subject: Address,
    items: Seq<WeighedItem>,
    k: int,
)
    requires
        0 <= k <= items.len(),
        distinct_attesters(items),
        nonces_below_last(items),
        s.attestation_counter + items.len() <= u64::MAX,
    ensures
        recorded_upto(s, batch_upto(s, call, subject, items, k), call, subject, items, k),
    decreases k,
{
    let t = batch_upto(s, call, subject, items, k);
    if k > 0 {
        lemma_recorded_upto(s, call, subject, items, k - 1);
        let p = batch_upto(s, call, subject, items, k - 1);
        let w = items[k - 1];
        let id = (s.attestation_counter + (k - 1)) as u64;
        assert(w.item.nonce < u64::MAX);
        let key = triple(subject, w);
        assert(item_key(subject, w.item) == key);
        assert(t.dedup_keys == p.dedup_keys.insert(key, true));
        assert(t.nonces == p.nonces.insert(w.item.attester, (w.item.nonce + 1) as u64));
        assert(t.attestations.remove(id) =~= p.attestations.remove(id));
        assert(listed(t, subject) == listed(p, subject).push(id));
        assert forall|j: int| 0 <= j < k implies due(t, (#[trigger] items[j]).item.attester)
            == items[j].item.nonce + 1 by {
            if j < k - 1 {
                assert(items[j].item.attester != items[k - 1].item.attester);
                assert(due(p, items[j].item.attester) == items[j].item.nonce + 1);
            }
        }
        assert forall|a: Address|
            (forall|j: int| 0 <= j < k ==> (#[trigger] items[j]).item.attester != a)
                implies #[trigger] due(t, a) == due(s, a) by {
            assert(items[k - 1].item.attester != a);
            assert(due(p, a) == due(s, a));
        }
        assert forall|q: DedupModel| #[trigger] t.dedup_keys.contains_key(q)
            implies s.dedup_keys.contains_key(q) || exists|j: int|
            0 <= j < k && q == triple(subject, #[trigger] items[j]) by {
            if q == key {
                assert(q == triple(subject, items[k - 1]));
            } else {
                assert(p.dedup_keys.contains_key(q));
            }
        }
        assert forall|q: DedupModel| s.dedup_keys.contains_key(q)
            implies #[trigger] t.dedup_keys.contains_key(q) by {
            assert(p.dedup_keys.contains_key(q));
        }
        assert forall|j: int| 0 <= j < k implies t.dedup_keys.contains_key(
            triple(subject, #[trigger] items[j]),
        ) by {
            if j < k - 1 {
                assert(p.dedup_keys.contains_key(triple(subject, items[j])));
            }
        }
        assert forall|x: u64|
            x < s.attestation_counter || x >= s.attestation_counter + k implies (
        #[trigger] t.attestations.contains_key(x) <==> s.attestations.contains_key(x))
            && t.attestations[x] == s.attestations[x] by {
            assert(p.attestations.contains_key(x) <==> s.attestations.contains_key(x));
        }
        assert forall|j: int| 0 <= j < k implies ({
            let x = (s.attestation_counter + j) as u64;
            &&& t.attestations.contains_key(x)
            &&& t.attestations[x] == (AttestationModel {
                id: x,
                verifier: (#[trigger] items[j]).item.attester,
                identity: subject,
                timestamp: call.now,
                weight: items[j].weight->Ok_0,
                attestation_data: items[j].item.attestation_data@,
                revoked: false,
            })
        }) by {
            if j < k - 1 {
                let x = (s.attestation_counter + j) as u64;
                assert(p.attestations.contains_key(x));
                assert(x != id);
            }
        }
        assert forall|other: Address| other != subject implies #[trigger] listed(t, other)
            == listed(s, other) by {
            assert(listed(p, other) == listed(s, other));
        }
        assert forall|other: Address| other != subject implies #[trigger] counted(t, other)
            == counted(s, other) by {
            assert(counted(p, other) == counted(s, other));
        }
        assert(listed(t, subject) =~= listed(s, subject) + Seq::new(
            k as nat,
            |j: int| (s.attestation_counter + j) as u64,
        ));
    }
}

/// A batch is admitted whenever the contract is not paused, its size is within bounds, its
/// attesters are distinct, signed, registered and carry the nonces that are due, below the last,
/// none of its triples is on record, every item can be weighed, the total is within the cap and
/// the ids do not run out, whatever else is on record. Then each item is on record under the next
/// id, as it was handed in; the ids come last on the subject's list, in order; the triples are
/// taken, the nonces and the count have grown; and nothing else has changed.
pub proof fn law_batch_is_recorded_as_made(
    c: &mut CredenceBond,
    call: Call,
    subject: Address,
    items: Vec<WeighedItem>,
    r: Result<Outcome<Vec<Attestation>>, Revert>,
)
    requires
        call_ensures(CredenceBond::add_attestation_batch, (c, &call, subject, &items), r),
    ensures
        r is Ok <==> batch_admitted(old(c)@, call, subject, items@),
        r is Err ==> final(c)@ == old(c)@,
        r is Ok ==> {
            let n = items@.len();
            let first = old(c)@.attestation_counter;
            &&& recorded_upto(old(c)@, final(c)@, call, subject, items@, n as int)
            &&& r->Ok_0.value@.len() == n
            &&& forall|j: int|
                0 <= j < n ==> (#[trigger] r->Ok_0.value@[j])@ == final(c)@.attestations[(first
                    + j) as u64]
            &&& r->Ok_0.effects@ =~= seq![
                keep_alive(),
                Effect::Publish(
                    Event::AttestationsBatchAdded { subject, first_id: first, count: n as u32 },
                ),
                Effect::CheckConsistency { subject: Some(subject) },
            ]
        },
{
    let s = old(c)@;
    let its = items@;
    let n = its.len() as int;
    lemma_admission_in_order(s, call, its, 0);
    lemma_weighing_in_order(its, 0);
    lemma_weight_upto(its, n);
    assert(distinct_attesters(its) <==> !repeats_attester(its));
    assert forall|i: int| 0 <= i < n implies item_key(subject, (#[trigger] its[i]).item) == triple(
        subject,
        its[i],
    ) by {}
    if r is Ok {
        assert forall|i: int| 0 <= i < n implies (#[trigger] its[i]).item.nonce < u64::MAX by {
            assert(its[i].item.nonce != u64::MAX);
        }
        lemma_recorded_upto(s, call, subject, its, n);
        assert forall|j: int| 0 <= j < n implies (#[trigger] r->Ok_0.value@[j])@
            == final(c)@.attestations[(s.attestation_counter + j) as u64] by {
            assert(its[j] == its[j]);
        }
    }
}

/// A batch that is not admitted is refused for the first thing amiss: the pause, the size, a
/// repeated attester, the first attester who is not admitted, a triple on record, the first item
/// that cannot be weighed, the total, and at last the nonces and ids.
pub proof fn law_batch_is_refused_for_the_first_thing_amiss(
    c: &mut CredenceBond,
    call: Call,
    subject: Address,
    items: Vec<WeighedItem>,
    r: Result<Outcome<Vec<Attestation>>, Revert>,
)
    requires
        call_ensures(CredenceBond::add_attestation_batch, (c, &call, subject, &items), r),
        r is Err,
    ensures
        ({
            let s = old(c)@;
            let its = items@;
            let why = r->Err_0;
            if s.paused {
                why == Revert::Paused
            } else if its.len() == 0 {
                why == coded(ContractError::EmptyBatch)
            } else if its.len() > 64 {
                why == coded(ContractError::BatchTooLarge)
            } else if !distinct_attesters(its) {
                why == Revert::DuplicateAttesterInBatch
            } else if !all_admitted(s, call, its) {
                exists|j: int|
                    first_not_admitted(s, call, its, j) && why == item_not_admitted(
                        s,
                        call,
                        #[trigger] its[j],
                    )
            } else if !none_on_record(s, subject, its) {
                why == coded(ContractError::DuplicateAttestation)
            } else if !all_weighed(its) {
                exists|j: int|
                    first_not_weighed(its, j) && why == (#[trigger] its[j]).weight->Err_0
            } else if weight_upto(its, its.len() as int) > s.weight_config.max_weight {
                why == coded(ContractError::AttestationWeightExceedsMax)
            } else {
                why == coded(ContractError::Overflow)
            }
        }),
{
    let s = old(c)@;
    let its = items@;
    lemma_admission_in_order(s, call, its, 0);
    lemma_weighing_in_order(its, 0);
    lemma_weight_upto(its, its.len() as int);
    assert(distinct_attesters(its) <==> !repeats_attester(its));
    assert forall|i: int| 0 <= i < its.len() implies item_key(subject, (#[trigger] its[i]).item)
        == triple(subject, its[i]) by {}
}

} // verus!
