//! Attestations: the books on them, their order, and the nonces that guard them.
use crate::address::Address;
use crate::attestation::{
    add_next, add_refusal, added, attester_registered, batch_attestation, batch_refusal,
    batch_upto, consume, due_nonce, item_key, item_refusal, lemma_admitted, lemma_weighed,
    live_count, live_ids, nonce_refusal, record, revoke_refusal, strike,
    total_weight, without, WeighedItem, MAX_BATCH_ATTESTATION_SIZE,
};
use crate::call::Call;
use crate::effect::first_of;
use crate::error::{ContractError, Revert};
use crate::state::{fresh_state, gate_refusal, State};
use crate::types::{
    AttestationModel, DedupModel, Parameters, TierThresholds, WeightConfig,
};
use vstd::prelude::*;

verus! {

/// Whether an attestation is on record and was not revoked.
pub open spec fn is_live(s: State, id: u64) -> bool {
    s.attestations.contains_key(id) && !s.attestations[id].revoked
}

/// Whether a live attestation stands under a key.
pub open spec fn stands_under(s: State, id: u64, key: DedupModel) -> bool {
    is_live(s, id) && s.attestations[id].dedup_key() == key
}

/// Every attestation is on record under its own id, and the next id is above all of them.
pub open spec fn ids_in_order(s: State) -> bool {
    forall|id: u64| #[trigger]
        s.attestations.contains_key(id) ==> s.attestations[id].id == id && id
            < s.attestation_counter
}

/// The list of a subject names each of its live attestations once, and nothing else.
pub open spec fn lists_match(s: State) -> bool {
    &&& forall|subject: Address| #[trigger] live_ids(s, subject).no_duplicates()
    &&& forall|subject: Address, id: u64| #[trigger]
        live_ids(s, subject).contains(id) <==> is_live(s, id) && s.attestations[id].identity
            == subject
}

/// The count of a subject is the length of its list.
pub open spec fn counts_match(s: State) -> bool {
    forall|subject: Address| #[trigger] live_count(s, subject) == live_ids(s, subject).len()
}

/// A triple of attester, subject and payload is taken exactly where a live attestation stands
/// under it, and no two do.
pub open spec fn keys_match(s: State) -> bool {
    &&& forall|key: DedupModel| #[trigger]
        s.dedup_keys.contains_key(key) <==> exists|id: u64| #[trigger] stands_under(s, id, key)
    &&& forall|key: DedupModel, i: u64, j: u64|
        #[trigger] stands_under(s, i, key) && #[trigger] stands_under(s, j, key) ==> i == j
}

/// The books on attestations agree with each other.
pub open spec fn books_agree(s: State) -> bool {
    &&& ids_in_order(s)
    &&& lists_match(s)
    &&& counts_match(s)
    &&& keys_match(s)
}

/// Leaving one id out of a list leaves the others, in their order, and shortens the list by one
/// where the id was in it once.
proof fn lemma_without(ids: Seq<u64>, id: u64)
    ensures
        forall|x: u64| #[trigger]
            without(ids, id).contains(x) <==> ids.contains(x) && x != id,
        ids.no_duplicates() ==> without(ids, id).no_duplicates(),
        !ids.contains(id) ==> without(ids, id) =~= ids,
        ids.no_duplicates() && ids.contains(id) ==> without(ids, id).len() == ids.len() - 1,
    decreases ids.len(),
{
    reveal(Seq::filter);
    if ids.len() > 0 {
        let front = ids.drop_last();
        let last = ids.last();
        lemma_without(front, id);
        assert(ids =~= front.push(last));
        assert forall|x: u64| ids.contains(x) <==> front.contains(x) || x == last by {
            if ids.contains(x) {
                let i = choose|i: int| 0 <= i < ids.len() && ids[i] == x;
                if i < front.len() {
                    assert(front[i] == x);
                }
            }
            if front.contains(x) {
                let i = choose|i: int| 0 <= i < front.len() && front[i] == x;
                assert(ids[i] == x);
            }
            assert(ids[ids.len() - 1] == last);
        }
        let kept = without(front, id);
        if last != id {
            let all = kept.push(last);
            assert(without(ids, id) == all);
            assert forall|x: u64| all.contains(x) <==> kept.contains(x) || x == last by {
                if all.contains(x) {
                    let i = choose|i: int| 0 <= i < all.len() && all[i] == x;
                    if i < kept.len() {
                        assert(kept[i] == x);
                    }
                }
                if kept.contains(x) {
                    let i = choose|i: int| 0 <= i < kept.len() && kept[i] == x;
                    assert(all[i] == x);
                }
                assert(all[kept.len() as int] == last);
            }
            if ids.no_duplicates() {
                assert(front.no_duplicates());
                assert(!front.contains(last)) by {
                    if front.contains(last) {
                        let i = choose|i: int| 0 <= i < front.len() && front[i] == last;
                        assert(ids[i] == ids[ids.len() - 1]);
                    }
                }
                assert(!kept.contains(last));
                assert forall|i: int, j: int|
                    0 <= i < all.len() && 0 <= j < all.len() && i != j implies all[i]
                    != all[j] by {
                    if i < kept.len() && j < kept.len() {
                        assert(kept[i] != kept[j]);
                    } else if i < kept.len() {
                        assert(kept.contains(kept[i]));
                    } else {
                        assert(kept.contains(kept[j]));
                    }
                }
            }
        } else {
            assert(without(ids, id) == kept);
            if ids.no_duplicates() {
                assert(front.no_duplicates());
                assert(!front.contains(last)) by {
                    if front.contains(last) {
                        let i = choose|i: int| 0 <= i < front.len() && front[i] == last;
                        assert(ids[i] == ids[ids.len() - 1]);
                    }
                }
            }
        }
    }
}

/// One more id at the end of a list.
proof fn lemma_push(ids: Seq<u64>, id: u64)
    ensures
        forall|x: u64| #[trigger] ids.push(id).contains(x) <==> ids.contains(x) || x == id,
        ids.no_duplicates() && !ids.contains(id) ==> ids.push(id).no_duplicates(),
{
    let all = ids.push(id);
    assert forall|x: u64| #[trigger] all.contains(x) <==> ids.contains(x) || x == id by {
        if all.contains(x) {
            let i = choose|i: int| 0 <= i < all.len() && all[i] == x;
            if i < ids.len() {
                assert(ids[i] == x);
            }
        }
        if ids.contains(x) {
            let i = choose|i: int| 0 <= i < ids.len() && ids[i] == x;
            assert(all[i] == x);
        }
        assert(all[ids.len() as int] == id);
    }
    if ids.no_duplicates() && !ids.contains(id) {
        assert forall|i: int, j: int|
            0 <= i < all.len() && 0 <= j < all.len() && i != j implies all[i] != all[j] by {
            if i < ids.len() && j < ids.len() {
                assert(ids[i] != ids[j]);
            } else if i < ids.len() {
                assert(ids.contains(ids[i]));
            } else {
                assert(ids.contains(ids[j]));
            }
        }
    }
}

/// Putting the next attestation on record keeps the books in agreement.
proof fn lemma_record_keeps_books(s: State, a: AttestationModel)
    requires
        books_agree(s),
        a.id == s.attestation_counter,
        a.id < u64::MAX,
        !a.revoked,
        !s.dedup_keys.contains_key(a.dedup_key()),
        live_count(s, a.identity) < u32::MAX,
    ensures
        books_agree(record(s, a)),
{
    let next = record(s, a);
    let id = a.id;
    assert(!s.attestations.contains_key(id));
    assert forall|x: u64| is_live(next, x) <==> is_live(s, x) || x == id by {}
    assert forall|x: u64| x != id implies next.attestations[x] == s.attestations[x] by {}
    lemma_push(live_ids(s, a.identity), id);
    assert(!live_ids(s, a.identity).contains(id));
    assert forall|subject: Address| subject != a.identity implies live_ids(next, subject)
        == live_ids(s, subject) && live_count(next, subject) == live_count(s, subject) by {}
    assert forall|subject: Address| #[trigger] live_ids(next, subject).no_duplicates() by {
        assert(live_ids(s, subject).no_duplicates());
    }
    assert forall|subject: Address, x: u64| #[trigger]
        live_ids(next, subject).contains(x) <==> is_live(next, x)
            && next.attestations[x].identity == subject by {
        assert(live_ids(s, subject).contains(x) <==> is_live(s, x) && s.attestations[x].identity
            == subject);
    }
    assert forall|subject: Address| #[trigger]
        live_count(next, subject) == live_ids(next, subject).len() by {
        assert(live_count(s, subject) == live_ids(s, subject).len());
    }
    assert(stands_under(next, id, a.dedup_key()));
    assert forall|key: DedupModel, x: u64| x != id implies #[trigger] stands_under(next, x, key)
        == stands_under(s, x, key) by {}
    assert forall|key: DedupModel| #[trigger]
        next.dedup_keys.contains_key(key) <==> exists|x: u64| #[trigger]
            stands_under(next, x, key) by {
        assert(s.dedup_keys.contains_key(key) <==> exists|x: u64| #[trigger]
            stands_under(s, x, key));
        if s.dedup_keys.contains_key(key) {
            let x = choose|x: u64| #[trigger] stands_under(s, x, key);
            assert(x != id);
            assert(stands_under(next, x, key));
        }
        if exists|x: u64| #[trigger] stands_under(next, x, key) {
            let x = choose|x: u64| #[trigger] stands_under(next, x, key);
            if x != id {
                assert(stands_under(s, x, key));
            }
        }
    }
    assert forall|key: DedupModel, i: u64, j: u64| #[trigger]
        stands_under(next, i, key) && #[trigger] stands_under(next, j, key) implies i == j by {
        if i != id && j != id {
            assert(stands_under(s, i, key) && stands_under(s, j, key));
        } else if i != j {
            let other = if i == id {
                j
            } else {
                i
            };
            assert(stands_under(s, other, key));
            assert(key == a.dedup_key());
            assert(s.dedup_keys.contains_key(key));
        }
    }
}

/// Striking a live attestation off keeps the books in agreement.
proof fn lemma_strike_keeps_books(s: State, id: u64)
    requires
        books_agree(s),
        is_live(s, id),
    ensures
        books_agree(strike(s, id)),
{
    let next = strike(s, id);
    let a = s.attestations[id];
    let ids = live_ids(s, a.identity);
    lemma_without(ids, id);
    assert(ids.contains(id));
    assert(ids.no_duplicates());
    assert(live_count(s, a.identity) == ids.len());
    assert(ids.len() > 0) by {
        let i = choose|i: int| 0 <= i < ids.len() && ids[i] == id;
    }
    assert forall|x: u64| is_live(next, x) <==> is_live(s, x) && x != id by {}
    assert forall|subject: Address| #[trigger] live_ids(next, subject).no_duplicates() by {
        assert(live_ids(s, subject).no_duplicates());
    }
    assert forall|subject: Address, x: u64| #[trigger]
        live_ids(next, subject).contains(x) <==> is_live(next, x)
            && next.attestations[x].identity == subject by {
        assert(live_ids(s, subject).contains(x) <==> is_live(s, x) && s.attestations[x].identity
            == subject);
    }
    assert forall|subject: Address| #[trigger]
        live_count(next, subject) == live_ids(next, subject).len() by {
        assert(live_count(s, subject) == live_ids(s, subject).len());
    }
    assert(stands_under(s, id, a.dedup_key()));
    assert forall|key: DedupModel, x: u64| #[trigger]
        stands_under(next, x, key) <==> stands_under(s, x, key) && x != id by {}
    assert forall|key: DedupModel| #[trigger]
        next.dedup_keys.contains_key(key) <==> exists|x: u64| #[trigger]
            stands_under(next, x, key) by {
        assert(s.dedup_keys.contains_key(key) <==> exists|x: u64| #[trigger]
            stands_under(s, x, key));
        if next.dedup_keys.contains_key(key) {
            let x = choose|x: u64| #[trigger] stands_under(s, x, key);
            assert(x != id);
            assert(stands_under(next, x, key));
        }
        if exists|x: u64| #[trigger] stands_under(next, x, key) {
            let x = choose|x: u64| #[trigger] stands_under(next, x, key);
            assert(stands_under(s, x, key));
            if key == a.dedup_key() {
                assert(x == id);
            }
        }
    }
    assert forall|key: DedupModel, i: u64, j: u64| #[trigger]
        stands_under(next, i, key) && #[trigger] stands_under(next, j, key) implies i == j by {
        assert(stands_under(s, i, key) && stands_under(s, j, key));
    }
}

/// The books are nobody else's business: a change that leaves the attestations, their counter,
/// the lists, the counts and the taken triples as they were leaves the books in agreement.
pub proof fn law_other_changes_keep_books(s: State, next: State)
    requires
        books_agree(s),
        next.attestations == s.attestations,
        next.attestation_counter == s.attestation_counter,
        next.subject_attestations == s.subject_attestations,
        next.subject_attestation_counts == s.subject_attestation_counts,
        next.dedup_keys == s.dedup_keys,
    ensures
        books_agree(next),
{
    assert forall|subject: Address| live_ids(next, subject) == live_ids(s, subject) && live_count(
        next,
        subject,
    ) == live_count(s, subject) by {}
    assert forall|subject: Address| #[trigger] live_ids(next, subject).no_duplicates() by {
        assert(live_ids(s, subject).no_duplicates());
    }
    assert forall|subject: Address, x: u64| #[trigger]
        live_ids(next, subject).contains(x) <==> is_live(next, x)
            && next.attestations[x].identity == subject by {
        assert(live_ids(s, subject).contains(x) <==> is_live(s, x) && s.attestations[x].identity
            == subject);
    }
    assert forall|subject: Address| #[trigger]
        live_count(next, subject) == live_ids(next, subject).len() by {
        assert(live_count(s, subject) == live_ids(s, subject).len());
    }
    assert forall|key: DedupModel, x: u64| #[trigger]
        stands_under(next, x, key) == stands_under(s, x, key) by {}
    assert forall|key: DedupModel| #[trigger]
        next.dedup_keys.contains_key(key) <==> exists|x: u64| #[trigger]
            stands_under(next, x, key) by {
        assert(s.dedup_keys.contains_key(key) <==> exists|x: u64| #[trigger]
            stands_under(s, x, key));
        if s.dedup_keys.contains_key(key) {
            let x = choose|x: u64| #[trigger] stands_under(s, x, key);
            assert(stands_under(next, x, key));
        }
    }
    assert forall|key: DedupModel, i: u64, j: u64| #[trigger]
        stands_under(next, i, key) && #[trigger] stands_under(next, j, key) implies i == j by {
        assert(stands_under(s, i, key) && stands_under(s, j, key));
    }
}

/// The books of a contract that was just deployed agree.
pub proof fn law_fresh_books_agree(
    thresholds: TierThresholds,
    parameters: Parameters,
    weights: WeightConfig,
)
    ensures
        books_agree(fresh_state(thresholds, parameters, weights)),
{
    let s = fresh_state(thresholds, parameters, weights);
    assert forall|subject: Address| live_ids(s, subject) =~= Seq::<u64>::empty() by {}
    assert forall|key: DedupModel, id: u64| !#[trigger] stands_under(s, id, key) by {}
}

/// An attestation keeps the books in agreement, short of the limit of a subject's count.
pub proof fn law_attesting_keeps_books(
    s: State,
    call: Call,
    attester: Address,
    subject: Address,
    data: Seq<u8>,
    nonce: u64,
    weight: Result<u32, Revert>,
)
    requires
        books_agree(s),
        add_refusal(s, call, attester, subject, data, nonce, weight) is None,
        live_count(s, subject) < u32::MAX,
    ensures
        books_agree(add_next(s, call, attester, subject, data, nonce, weight)),
{
    law_other_changes_keep_books(s, consume(s, attester, nonce));
    let a = added(s, call, attester, subject, data, weight);
    assert(a.dedup_key() == (DedupModel {
        verifier: attester,
        identity: subject,
        attestation_data: data,
    }));
    lemma_record_keeps_books(consume(s, attester, nonce), a);
}

/// A revocation keeps the books in agreement.
pub proof fn law_revoking_keeps_books(
    s: State,
    call: Call,
    attester: Address,
    id: u64,
    nonce: u64,
)
    requires
        books_agree(s),
        revoke_refusal(s, call, attester, id, nonce) is None,
    ensures
        books_agree(strike(consume(s, attester, nonce), id)),
{
    law_other_changes_keep_books(s, consume(s, attester, nonce));
    lemma_strike_keeps_books(consume(s, attester, nonce), id);
}

/// What is written is read back: a new attestation is on record under a fresh id, unrevoked, at
/// the end of its subject's list, and no other attestation and no other subject is touched.
pub proof fn law_attestation_is_read_back(
    s: State,
    call: Call,
    attester: Address,
    subject: Address,
    data: Seq<u8>,
    nonce: u64,
    weight: Result<u32, Revert>,
    other_id: u64,
    other_subject: Address,
)
    requires
        books_agree(s),
        add_refusal(s, call, attester, subject, data, nonce, weight) is None,
        other_id != s.attestation_counter,
        other_subject != subject,
    ensures
        ({
            let a = added(s, call, attester, subject, data, weight);
            let next = add_next(s, call, attester, subject, data, nonce, weight);
            &&& !s.attestations.contains_key(a.id)
            &&& next.attestations.contains_key(a.id) && next.attestations[a.id] == a
            &&& a.verifier == attester && a.identity == subject && a.attestation_data == data
            &&& weight == Ok::<u32, Revert>(a.weight)
            &&& !a.revoked
            &&& live_ids(next, subject) == live_ids(s, subject).push(a.id)
            &&& next.attestation_counter == s.attestation_counter + 1
            &&& s.attestations.contains_key(other_id) == next.attestations.contains_key(other_id)
            &&& s.attestations[other_id] == next.attestations[other_id]
            &&& live_ids(next, other_subject) == live_ids(s, other_subject)
            &&& live_count(next, other_subject) == live_count(s, other_subject)
        }),
{
    if s.attestations.contains_key(s.attestation_counter) {
        assert(s.attestation_counter < s.attestation_counter);
    }
}

/// No attestation is recorded twice: while one stands, the same attester's call with the same
/// subject and payload is refused, with whatever nonce and at whatever time.
pub proof fn law_duplicates_are_refused(
    s: State,
    call: Call,
    attester: Address,
    subject: Address,
    data: Seq<u8>,
    nonce: u64,
    weight: Result<u32, Revert>,
    later: Call,
    later_nonce: u64,
    later_weight: Result<u32, Revert>,
)
    requires
        add_refusal(s, call, attester, subject, data, nonce, weight) is None,
    ensures
        ({
            let next = add_next(s, call, attester, subject, data, nonce, weight);
            let again = add_refusal(
                next,
                later,
                attester,
                subject,
                data,
                later_nonce,
                later_weight,
            );
            &&& again is Some
            &&& first_of(
                gate_refusal(next, later, attester),
                nonce_refusal(next, attester, later_nonce),
            ) is None ==> again == Some(Revert::Contract(ContractError::DuplicateAttestation))
        }),
{
    let a = added(s, call, attester, subject, data, weight);
    assert(a.dedup_key() == (DedupModel {
        verifier: attester,
        identity: subject,
        attestation_data: data,
    }));
}

/// While an attestation stands, however it came to and whatever happened since, the same triple
/// is refused as a duplicate to its registered attester, with any nonce that is due.
pub proof fn law_standing_attestations_bar_duplicates(
    s: State,
    id: u64,
    call: Call,
    nonce: u64,
    weight: Result<u32, Revert>,
)
    requires
        books_agree(s),
        is_live(s, id),
        gate_refusal(s, call, s.attestations[id].verifier) is None,
        attester_registered(s, s.attestations[id].verifier),
        nonce == due_nonce(s, s.attestations[id].verifier),
    ensures
        add_refusal(
            s,
            call,
            s.attestations[id].verifier,
            s.attestations[id].identity,
            s.attestations[id].attestation_data,
            nonce,
            weight,
        ) == Some(Revert::Contract(ContractError::DuplicateAttestation)),
{
    let a = s.attestations[id];
    assert(stands_under(s, id, a.dedup_key()));
    assert(s.dedup_keys.contains_key(a.dedup_key()));
    assert(a.dedup_key() == (DedupModel {
        verifier: a.verifier,
        identity: a.identity,
        attestation_data: a.attestation_data,
    }));
}

/// A revocation undoes its attestation: the subject's list and count, and the triples that are
/// taken, are as they were before it.
pub proof fn law_revoking_undoes_attesting(
    s: State,
    call: Call,
    attester: Address,
    subject: Address,
    data: Seq<u8>,
    nonce: u64,
    weight: Result<u32, Revert>,
    later: Call,
    later_nonce: u64,
)
    requires
        books_agree(s),
        add_refusal(s, call, attester, subject, data, nonce, weight) is None,
        live_count(s, subject) < u32::MAX,
        revoke_refusal(
            add_next(s, call, attester, subject, data, nonce, weight),
            later,
            attester,
            s.attestation_counter,
            later_nonce,
        ) is None,
    ensures
        ({
            let added_to = add_next(s, call, attester, subject, data, nonce, weight);
            let next = strike(consume(added_to, attester, later_nonce), s.attestation_counter);
            &&& live_ids(next, subject) == live_ids(s, subject)
            &&& live_count(next, subject) == live_count(s, subject)
            &&& next.dedup_keys == s.dedup_keys
        }),
{
    let id = s.attestation_counter;
    let a = added(s, call, attester, subject, data, weight);
    let added_to = add_next(s, call, attester, subject, data, nonce, weight);
    let next = strike(consume(added_to, attester, later_nonce), id);
    let ids = live_ids(s, subject);
    if s.attestations.contains_key(id) {
        assert(id < s.attestation_counter);
    }
    assert(!ids.contains(id));
    lemma_without(ids, id);
    assert(without(ids.push(id), id) =~= ids) by {
        reveal(Seq::filter);
        assert(ids.push(id).drop_last() =~= ids);
    }
    assert(a.dedup_key() == (DedupModel {
        verifier: attester,
        identity: subject,
        attestation_data: data,
    }));
    assert(next.dedup_keys =~= s.dedup_keys);
}

/// A revocation frees its triple: the same attestation may be made again with the next nonce.
pub proof fn law_revoked_attestations_may_be_renewed(
    s: State,
    call: Call,
    attester: Address,
    id: u64,
    nonce: u64,
    later: Call,
    weight: u32,
)
    requires
        revoke_refusal(s, call, attester, id, nonce) is None,
        attester_registered(s, attester),
        later.has_auth(attester),
        nonce + 1 < u64::MAX,
        s.attestation_counter < u64::MAX,
    ensures
        add_refusal(
            strike(consume(s, attester, nonce), id),
            later,
            attester,
            s.attestations[id].identity,
            s.attestations[id].attestation_data,
            (nonce + 1) as u64,
            Ok(weight),
        ) is None,
{
    let a = s.attestations[id];
    assert(a.dedup_key() == (DedupModel {
        verifier: attester,
        identity: a.identity,
        attestation_data: a.attestation_data,
    }));
}

/// A revocation is final for its attestation, and only its own attester can make it.
pub proof fn law_revocation_is_final(
    s: State,
    call: Call,
    attester: Address,
    id: u64,
    nonce: u64,
    later: Call,
    who: Address,
    later_nonce: u64,
)
    requires
        revoke_refusal(s, call, attester, id, nonce) is None,
    ensures
        s.attestations[id].verifier == attester,
        strike(consume(s, attester, nonce), id).attestations[id].revoked,
        revoke_refusal(strike(consume(s, attester, nonce), id), later, who, id, later_nonce)
            is Some,
{
}

/// A nonce is good once: after it was used to attest or to revoke, it is refused, the next one
/// is due, and no other identity's nonce has moved.
pub proof fn law_nonces_are_used_once(s: State, who: Address, nonce: u64, other: Address, id: u64)
    requires
        nonce_refusal(s, who, nonce) is None,
        nonce < u64::MAX,
        other != who,
    ensures
        ({
            let next = consume(s, who, nonce);
            &&& due_nonce(s, who) == nonce
            &&& due_nonce(next, who) == nonce + 1
            &&& nonce_refusal(next, who, nonce) == Some(Revert::InvalidNonce)
            &&& due_nonce(next, other) == due_nonce(s, other)
            &&& due_nonce(strike(next, id), who) == nonce + 1
        }),
{
}

/// A replayed call is refused: once an attestation went through, the very same call does not.
pub proof fn law_replays_are_refused(
    s: State,
    call: Call,
    attester: Address,
    subject: Address,
    data: Seq<u8>,
    nonce: u64,
    weight: Result<u32, Revert>,
    other_subject: Address,
    other_data: Seq<u8>,
)
    requires
        add_refusal(s, call, attester, subject, data, nonce, weight) is None,
    ensures
        add_refusal(
            add_next(s, call, attester, subject, data, nonce, weight),
            call,
            attester,
            other_subject,
            other_data,
            nonce,
            weight,
        ) == Some(Revert::InvalidNonce),
{
}

/// Registration decides who attests: a registered attester is not refused as unauthorized, and
/// one who was removed is.
pub proof fn law_registration_decides(
    s: State,
    call: Call,
    attester: Address,
    subject: Address,
    data: Seq<u8>,
    nonce: u64,
    weight: u32,
)
    ensures
        ({
            let unauthorized = Some(Revert::Contract(ContractError::UnauthorizedAttester));
            let with = State { attesters: s.attesters.insert(attester, true), ..s };
            let without = State { attesters: s.attesters.remove(attester), ..s };
            &&& attester_registered(with, attester)
            &&& !attester_registered(without, attester)
            &&& add_refusal(with, call, attester, subject, data, nonce, Ok(weight))
                != unauthorized
            &&& add_refusal(without, call, attester, subject, data, nonce, Ok(weight)) is Some
            &&& gate_refusal(s, call, attester) is None ==> add_refusal(
                without,
                call,
                attester,
                subject,
                data,
                nonce,
                Ok(weight),
            ) == unauthorized
        }),
{
}

/// What holds while a batch that was admitted is put on record: the items that are still to come
/// are not on record, and the nonces of their attesters have not moved.
proof fn lemma_batch_step(
    s: State,
    call: Call,
    subject: Address,
    items: Seq<WeighedItem>,
    k: int,
)
    requires
        batch_refusal(s, call, subject, items) is None,
        0 <= k <= items.len(),
    ensures
        ({
            let t = batch_upto(s, call, subject, items, k);
            &&& t.attestation_counter == s.attestation_counter + k
            &&& t.attesters == s.attesters
            &&& t.paused == s.paused
            &&& forall|j: int|
                k <= j < items.len() ==> !t.dedup_keys.contains_key(
                    item_key(subject, (#[trigger] items[j]).item),
                ) && due_nonce(t, items[j].item.attester) == due_nonce(
                    s,
                    items[j].item.attester,
                )
        }),
    decreases k,
{
    if k > 0 {
        lemma_batch_step(s, call, subject, items, k - 1);
        let before = batch_upto(s, call, subject, items, k - 1);
        let item = items[k - 1].item;
        let a = batch_attestation(s, call, subject, items, k - 1);
        assert(a.dedup_key() == item_key(subject, item));
        assert forall|j: int| k <= j < items.len() implies item_key(
            subject,
            (#[trigger] items[j]).item,
        ) != item_key(subject, item) && items[j].item.attester != item.attester by {
            assert(items[k - 1].item.attester != items[j].item.attester);
        }
    }
}

/// A batch is its items, one after the other: each of them would be admitted on its own where
/// the ones before it are on record, and has the effect on the state that it has on its own.
pub proof fn law_batch_is_a_sequence(
    s: State,
    call: Call,
    subject: Address,
    items: Seq<WeighedItem>,
    k: int,
)
    requires
        batch_refusal(s, call, subject, items) is None,
        0 <= k < items.len(),
    ensures
        ({
            let t = batch_upto(s, call, subject, items, k);
            let item = items[k].item;
            let data = item.attestation_data@;
            &&& add_refusal(t, call, item.attester, subject, data, item.nonce, items[k].weight)
                is None
            &&& added(t, call, item.attester, subject, data, items[k].weight)
                == batch_attestation(s, call, subject, items, k)
            &&& add_next(t, call, item.attester, subject, data, item.nonce, items[k].weight)
                == batch_upto(s, call, subject, items, k + 1)
        }),
{
    lemma_batch_step(s, call, subject, items, k);
    lemma_admitted(s, call, items, 0);
    lemma_weighed(items, 0);
    let t = batch_upto(s, call, subject, items, k);
    let item = items[k].item;
    assert(item_refusal(s, call, item) is None);
    assert(items[k].weight is Ok);
    assert(item_key(subject, item) == (DedupModel {
        verifier: item.attester,
        identity: subject,
        attestation_data: item.attestation_data@,
    }));
    assert(attester_registered(t, item.attester) == attester_registered(s, item.attester));
    assert(nonce_refusal(t, item.attester, item.nonce) == nonce_refusal(
        s,
        item.attester,
        item.nonce,
    ));
}

/// The count of a subject grows by one with each item of a batch.
proof fn lemma_batch_count(
    s: State,
    call: Call,
    subject: Address,
    items: Seq<WeighedItem>,
    k: int,
)
    requires
        0 <= k,
        live_count(s, subject) + k <= u32::MAX,
    ensures
        live_count(batch_upto(s, call, subject, items, k), subject) == live_count(s, subject) + k,
    decreases k,
{
    if k > 0 {
        lemma_batch_count(s, call, subject, items, k - 1);
    }
}

/// A batch keeps the books in agreement, short of the limit of its subject's count.
pub proof fn law_batch_keeps_books(
    s: State,
    call: Call,
    subject: Address,
    items: Seq<WeighedItem>,
    k: int,
)
    requires
        books_agree(s),
        batch_refusal(s, call, subject, items) is None,
        live_count(s, subject) + items.len() <= u32::MAX,
        0 <= k <= items.len(),
    ensures
        books_agree(batch_upto(s, call, subject, items, k)),
        live_count(batch_upto(s, call, subject, items, k), subject) == live_count(s, subject) + k,
    decreases k,
{
    lemma_batch_count(s, call, subject, items, k);
    if k > 0 {
        law_batch_keeps_books(s, call, subject, items, k - 1);
        law_batch_is_a_sequence(s, call, subject, items, k - 1);
        let item = items[k - 1].item;
        law_attesting_keeps_books(
            batch_upto(s, call, subject, items, k - 1),
            call,
            item.attester,
            subject,
            item.attestation_data@,
            item.nonce,
            items[k - 1].weight,
        );
    }
}

/// Weights do not take away from a total.
proof fn lemma_weight_bounded(items: Seq<WeighedItem>, k: int, n: int)
    requires
        0 <= k < n <= items.len(),
    ensures
        items[k].weight->Ok_0 <= total_weight(items, n),
        0 <= total_weight(items, k) <= total_weight(items, n),
    decreases n,
{
    if k == n - 1 {
        if k > 0 {
            lemma_weight_bounded(items, k - 1, k);
        }
    } else {
        lemma_weight_bounded(items, k, n - 1);
    }
}

/// The weight cap holds inside a batch: neither an item of a batch that is admitted nor all of
/// them together weigh more than it allows.
pub proof fn law_batch_weight_is_capped(
    s: State,
    call: Call,
    subject: Address,
    items: Seq<WeighedItem>,
    k: int,
)
    requires
        batch_refusal(s, call, subject, items) is None,
        0 <= k < items.len(),
    ensures
        items[k].weight is Ok,
        items[k].weight->Ok_0 <= s.weight_config.max_weight,
        total_weight(items, items.len() as int) <= s.weight_config.max_weight,
        items.len() <= MAX_BATCH_ATTESTATION_SIZE,
{
    lemma_weighed(items, 0);
    lemma_weight_bounded(items, k, items.len() as int);
}

} // verus!
