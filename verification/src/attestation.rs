//! Attesters, and the attestations that they record on subjects.
use crate::address::Address;
use crate::bytes::copy_bytes;
use crate::call::Call;
use crate::effect::{
    answers, bump_instance_ttl, first_of, refuse_if, verdict_refusal, Effect, Event, Outcome,
};
use crate::error::{ContractError, Revert, Verdict};
use crate::state::{
    admin_gate_refusal, auth_refusal, gate_refusal, pause_refusal, standing_admin_refusal,
    transacts, CredenceBond, State,
};
use crate::table::get_or;
use crate::types::{
    Attestation, AttestationBatchItem, AttestationDedupKey, AttestationModel, DedupModel,
    WeightConfig,
};
use vstd::prelude::*;

verus! {

/// Maximum number of attestations allowed in a single batch operation.
pub const MAX_BATCH_ATTESTATION_SIZE: u32 = 64;

/// An item of a batch, with the weight that the weighing of its attester gives it, or the reason
/// for which that weighing refuses.
#[derive(Debug)]
pub struct WeighedItem {
    pub item: AttestationBatchItem,
    pub weight: Result<u32, Revert>,
}

/// Whether an address is a registered attester.
pub open spec fn attester_registered(s: State, attester: Address) -> bool {
    get_or(s.attesters, attester, false)
}

/// The nonce that is due from an identity.
pub open spec fn due_nonce(s: State, identity: Address) -> u64 {
    get_or(s.nonces, identity, 0)
}

/// The live attestations of a subject, oldest first.
pub open spec fn live_ids(s: State, subject: Address) -> Seq<u64> {
    get_or(s.subject_attestations, subject, Seq::empty())
}

/// The number of live attestations that is kept for a subject.
pub open spec fn live_count(s: State, subject: Address) -> u32 {
    get_or(s.subject_attestation_counts, subject, 0)
}

/// The refusal of a nonce other than the one that is due.
pub open spec fn nonce_refusal(s: State, identity: Address, nonce: u64) -> Option<Revert> {
    refuse_if(nonce != due_nonce(s, identity), Revert::InvalidNonce)
}

/// Whether a batch would use the last nonce that an identity has, after which none could be due.
pub open spec fn uses_last_nonce(items: Seq<WeighedItem>) -> bool {
    exists|i: int| 0 <= i < items.len() && (#[trigger] items[i]).item.nonce == u64::MAX
}

/// The state once an identity has used a nonce.
pub open spec fn consume(s: State, identity: Address, nonce: u64) -> State {
    State { nonces: s.nonces.insert(identity, (nonce + 1) as u64), ..s }
}

/// The state once an attestation is on record.
pub open spec fn record(s: State, a: AttestationModel) -> State {
    State {
        attestations: s.attestations.insert(a.id, a),
        attestation_counter: (a.id + 1) as u64,
        dedup_keys: s.dedup_keys.insert(a.dedup_key(), true),
        subject_attestations: s.subject_attestations.insert(
            a.identity,
            live_ids(s, a.identity).push(a.id),
        ),
        subject_attestation_counts: s.subject_attestation_counts.insert(
            a.identity,
            if live_count(s, a.identity) < u32::MAX {
                (live_count(s, a.identity) + 1) as u32
            } else {
                u32::MAX
            },
        ),
        ..s
    }
}

/// The attestation that is recorded next.
pub open spec fn next_attestation(
    s: State,
    now: u64,
    attester: Address,
    subject: Address,
    data: Seq<u8>,
    weight: u32,
) -> AttestationModel {
    AttestationModel {
        id: s.attestation_counter,
        verifier: attester,
        identity: subject,
        timestamp: now,
        weight,
        attestation_data: data,
        revoked: false,
    }
}

/// Why an attestation is refused.
pub open spec fn add_refusal(
    s: State,
    call: Call,
    attester: Address,
    subject: Address,
    data: Seq<u8>,
    nonce: u64,
    weight: Result<u32, Revert>,
) -> Option<Revert> {
    let key = DedupModel { verifier: attester, identity: subject, attestation_data: data };
    first_of(
        gate_refusal(s, call, attester),
        first_of(
            refuse_if(
                !attester_registered(s, attester),
                Revert::Contract(ContractError::UnauthorizedAttester),
            ),
            first_of(
                nonce_refusal(s, attester, nonce),
                first_of(
                    refuse_if(
                        s.dedup_keys.contains_key(key),
                        Revert::Contract(ContractError::DuplicateAttestation),
                    ),
                    first_of(
                        refuse_if(
                            nonce == u64::MAX || s.attestation_counter == u64::MAX,
                            Revert::Contract(ContractError::Overflow),
                        ),
                        verdict_refusal(weight),
                    ),
                ),
            ),
        ),
    )
}

/// The attestation that an admitted call records.
pub open spec fn added(
    s: State,
    call: Call,
    attester: Address,
    subject: Address,
    data: Seq<u8>,
    weight: Result<u32, Revert>,
) -> AttestationModel {
    next_attestation(s, call.now, attester, subject, data, weight->Ok_0)
}

/// The state once an admitted attestation is on record and its nonce is used.
pub open spec fn add_next(
    s: State,
    call: Call,
    attester: Address,
    subject: Address,
    data: Seq<u8>,
    nonce: u64,
    weight: Result<u32, Revert>,
) -> State {
    record(consume(s, attester, nonce), added(s, call, attester, subject, data, weight))
}

/// Whether two items of a batch have the same attester.
pub open spec fn repeats_attester(items: Seq<WeighedItem>) -> bool {
    exists|i: int, j: int|
        0 <= i < j < items.len() && (#[trigger] items[i]).item.attester == (
        #[trigger] items[j]).item.attester
}

/// Why the attester of an item may not attest.
pub open spec fn item_refusal(s: State, call: Call, item: AttestationBatchItem) -> Option<Revert> {
    first_of(
        auth_refusal(call, item.attester),
        first_of(
            refuse_if(
                !attester_registered(s, item.attester),
                Revert::Contract(ContractError::UnauthorizedAttester),
            ),
            nonce_refusal(s, item.attester, item.nonce),
        ),
    )
}

/// The first reason for which the attester of an item, from the `k`th on, may not attest.
pub open spec fn admission_refusal(
    s: State,
    call: Call,
    items: Seq<WeighedItem>,
    k: int,
) -> Option<Revert>
    decreases items.len() - k,
{
    if 0 <= k < items.len() {
        first_of(
            item_refusal(s, call, items[k].item),
            admission_refusal(s, call, items, k + 1),
        )
    } else {
        None
    }
}

/// The key of an item of a batch for `subject`.
pub open spec fn item_key(subject: Address, item: AttestationBatchItem) -> DedupModel {
    DedupModel {
        verifier: item.attester,
        identity: subject,
        attestation_data: item.attestation_data@,
    }
}

/// Whether an item of a batch is on record already.
pub open spec fn repeats_attestation(
    s: State,
    subject: Address,
    items: Seq<WeighedItem>,
) -> bool {
    exists|i: int|
        0 <= i < items.len() && s.dedup_keys.contains_key(
            item_key(subject, (#[trigger] items[i]).item),
        )
}

/// The first reason for which the weighing of an item, from the `k`th on, refuses.
pub open spec fn weighing_refusal(items: Seq<WeighedItem>, k: int) -> Option<Revert>
    decreases items.len() - k,
{
    if 0 <= k < items.len() {
        first_of(verdict_refusal(items[k].weight), weighing_refusal(items, k + 1))
    } else {
        None
    }
}

/// The total weight of the first `k` items.
pub open spec fn total_weight(items: Seq<WeighedItem>, k: int) -> int
    decreases k,
{
    if k <= 0 {
        0
    } else {
        total_weight(items, k - 1) + items[k - 1].weight->Ok_0
    }
}

/// Why a batch of attestations is refused.
pub open spec fn batch_refusal(
    s: State,
    call: Call,
    subject: Address,
    items: Seq<WeighedItem>,
) -> Option<Revert> {
    first_of(
        pause_refusal(s),
        first_of(
            batch_size_refusal(items.len(), MAX_BATCH_ATTESTATION_SIZE as nat),
            first_of(
                refuse_if(repeats_attester(items), Revert::DuplicateAttesterInBatch),
                first_of(
                    admission_refusal(s, call, items, 0),
                    first_of(
                        refuse_if(
                            repeats_attestation(s, subject, items),
                            Revert::Contract(ContractError::DuplicateAttestation),
                        ),
                        first_of(
                            weighing_refusal(items, 0),
                            first_of(
                                refuse_if(
                                    total_weight(items, items.len() as int)
                                        > s.weight_config.max_weight,
                                    Revert::Contract(ContractError::AttestationWeightExceedsMax),
                                ),
                                refuse_if(
                                    uses_last_nonce(items) || s.attestation_counter + items.len()
                                        > u64::MAX,
                                    Revert::Contract(ContractError::Overflow),
                                ),
                            ),
                        ),
                    ),
                ),
            ),
        ),
    )
}

/// Why a batch is refused for its size.
pub open spec fn batch_size_refusal(n: nat, max: nat) -> Option<Revert> {
    first_of(
        refuse_if(n == 0, Revert::Contract(ContractError::EmptyBatch)),
        refuse_if(n > max, Revert::Contract(ContractError::BatchTooLarge)),
    )
}

/// The attestation that the `k`th item of an admitted batch records.
pub open spec fn batch_attestation(
    s: State,
    call: Call,
    subject: Address,
    items: Seq<WeighedItem>,
    k: int,
) -> AttestationModel {
    AttestationModel {
        id: (s.attestation_counter + k) as u64,
        verifier: items[k].item.attester,
        identity: subject,
        timestamp: call.now,
        weight: items[k].weight->Ok_0,
        attestation_data: items[k].item.attestation_data@,
        revoked: false,
    }
}

/// The state once the first `k` items of a batch are on record and their nonces are used.
pub open spec fn batch_upto(
    s: State,
    call: Call,
    subject: Address,
    items: Seq<WeighedItem>,
    k: int,
) -> State
    decreases k,
{
    if k <= 0 {
        s
    } else {
        record(
            consume(
                batch_upto(s, call, subject, items, k - 1),
                items[k - 1].item.attester,
                items[k - 1].item.nonce,
            ),
            batch_attestation(s, call, subject, items, k - 1),
        )
    }
}

/// Why a revocation is refused.
pub open spec fn revoke_refusal(
    s: State,
    call: Call,
    attester: Address,
    id: u64,
    nonce: u64,
) -> Option<Revert> {
    first_of(
        gate_refusal(s, call, attester),
        first_of(
            nonce_refusal(s, attester, nonce),
            if !s.attestations.contains_key(id) {
                Some(Revert::Contract(ContractError::AttestationNotFound))
            } else {
                first_of(
                    refuse_if(
                        s.attestations[id].verifier != attester,
                        Revert::Contract(ContractError::NotOriginalAttester),
                    ),
                    first_of(
                        refuse_if(
                            s.attestations[id].revoked,
                            Revert::Contract(ContractError::AttestationAlreadyRevoked),
                        ),
                        refuse_if(
                            nonce == u64::MAX,
                            Revert::Contract(ContractError::Overflow),
                        ),
                    ),
                )
            },
        ),
    )
}

/// The ids other than `id`.
pub open spec fn other_than(id: u64) -> spec_fn(u64) -> bool {
    |v: u64| v != id
}

/// A list of ids without one of them.
pub open spec fn without(ids: Seq<u64>, id: u64) -> Seq<u64> {
    ids.filter(other_than(id))
}

/// The state once an attestation is struck off.
pub open spec fn strike(s: State, id: u64) -> State {
    let a = s.attestations[id];
    State {
        attestations: s.attestations.insert(id, AttestationModel { revoked: true, ..a }),
        dedup_keys: s.dedup_keys.remove(a.dedup_key()),
        subject_attestations: s.subject_attestations.insert(
            a.identity,
            without(live_ids(s, a.identity), id),
        ),
        subject_attestation_counts: s.subject_attestation_counts.insert(
            a.identity,
            if live_count(s, a.identity) > 0 {
                (live_count(s, a.identity) - 1) as u32
            } else {
                0
            },
        ),
        ..s
    }
}

/// The attestations that an event tells of, out of the state in which it is published: an event
/// names them by their ids, and is published with what stands on record under these.
pub open spec fn told(s: State, event: Event) -> Seq<AttestationModel> {
    match event {
        Event::AttestationAdded { id, .. } => seq![s.attestations[id]],
        Event::AttestationsBatchAdded { first_id, count, .. } => Seq::new(
            count as nat,
            |k: int| s.attestations[(first_id + k) as u64],
        ),
        Event::AttestationRevoked { id, .. } => seq![s.attestations[id]],
        _ => seq![],
    }
}

/// The effects of a change to a subject's attestations.
pub open spec fn subject_effects(event: Event, subject: Address) -> Seq<Effect> {
    seq![
        bump_instance_ttl(),
        Effect::Publish(event),
        Effect::CheckConsistency { subject: Some(subject) },
    ]
}

/// Refuses a batch of `n` items for its size.
pub(crate) fn verify_batch_size(n: usize, max: u32) -> (r: Result<(), Revert>)
    ensures
        answers(r, batch_size_refusal(n as nat, max as nat)),
{
    if n == 0 {
        return Err(Revert::Contract(ContractError::EmptyBatch));
    }
    if n as u64 > max as u64 {
        return Err(Revert::Contract(ContractError::BatchTooLarge));
    }
    Ok(())
}

/// Refuses a batch in which two items have the same attester.
fn verify_distinct_attesters(items: &Vec<WeighedItem>) -> (r: Result<(), Revert>)
    ensures
        answers(r, refuse_if(repeats_attester(items@), Revert::DuplicateAttesterInBatch)),
{
    let n: usize = items.len();
    let mut i: usize = 0;
    while i < n
        invariant
            i <= n,
            n == items@.len(),
            forall|a: int, b: int|
                0 <= a < i && a < b < n ==> (#[trigger] items@[a]).item.attester != (
                #[trigger] items@[b]).item.attester,
        decreases n - i,
    {
        let mut j: usize = i + 1;
        while j < n
            invariant
                i < j <= n,
                n == items@.len(),
                forall|b: int|
                    i < b < j ==> items@[i as int].item.attester != (
                    #[trigger] items@[b]).item.attester,
            decreases n - j,
        {
            if items[i].item.attester == items[j].item.attester {
                return Err(Revert::DuplicateAttesterInBatch);
            }
            j += 1;
        }
        i += 1;
    }
    Ok(())
}

/// Whether a batch would use the last nonce that an identity has.
fn has_last_nonce(items: &Vec<WeighedItem>) -> (r: bool)
    ensures
        r == uses_last_nonce(items@),
{
    let n: usize = items.len();
    let mut i: usize = 0;
    while i < n
        invariant
            i <= n,
            n == items@.len(),
            forall|j: int| 0 <= j < i ==> (#[trigger] items@[j]).item.nonce != u64::MAX,
        decreases n - i,
    {
        if items[i].item.nonce == u64::MAX {
            return true;
        }
        i += 1;
    }
    false
}

/// The ids in a list other than `id`, in their order.
fn list_without(ids: &Vec<u64>, id: u64) -> (r: Vec<u64>)
    ensures
        r@ == without(ids@, id),
{
    let mut kept: Vec<u64> = Vec::new();
    let n: usize = ids.len();
    let mut i: usize = 0;
    proof {
        reveal(Seq::filter);
        assert(ids@.take(0) =~= Seq::<u64>::empty());
    }
    while i < n
        invariant
            i <= n,
            n == ids@.len(),
            kept@ == ids@.take(i as int).filter(other_than(id)),
        decreases n - i,
    {
        let v: u64 = ids[i];
        proof {
            reveal(Seq::filter);
            assert(ids@.take(i + 1).drop_last() =~= ids@.take(i as int));
        }
        if v != id {
            kept.push(v);
        }
        i += 1;
    }
    assert(ids@.take(n as int) =~= ids@);
    kept
}

impl CredenceBond {
    /// Register an authorized attester.
    pub fn register_attester(&mut self, call: &Call, attester: Address) -> (r: Result<
        Outcome<()>,
        Revert,
    >)
        ensures
            transacts(
                old(self)@,
                final(self)@,
                r,
                standing_admin_refusal(old(self)@, *call),
                State { attesters: old(self)@.attesters.insert(attester, true), ..old(self)@ },
                (),
                seq![Effect::Publish(Event::AttesterRegistered { attester })],
            ),
    {
        self.require_standing_admin(call)?;
        self.attesters.insert(attester, true);
        Ok(
            Outcome {
                value: (),
                effects: vec![Effect::Publish(Event::AttesterRegistered { attester })],
            },
        )
    }

    /// Remove an authorized attester.
    pub fn unregister_attester(&mut self, call: &Call, attester: Address) -> (r: Result<
        Outcome<()>,
        Revert,
    >)
        ensures
            transacts(
                old(self)@,
                final(self)@,
                r,
                standing_admin_refusal(old(self)@, *call),
                State { attesters: old(self)@.attesters.remove(attester), ..old(self)@ },
                (),
                seq![Effect::Publish(Event::AttesterUnregistered { attester })],
            ),
    {
        self.require_standing_admin(call)?;
        self.attesters.remove(&attester);
        Ok(
            Outcome {
                value: (),
                effects: vec![Effect::Publish(Event::AttesterUnregistered { attester })],
            },
        )
    }

    /// Check whether an address is an authorized attester.
    pub fn is_attester(&self, attester: &Address) -> (r: bool)
        ensures
            r == attester_registered(self@, *attester),
    {
        match self.attesters.get(attester) {
            Some(b) => *b,
            None => false,
        }
    }

    /// Get current nonce for an identity (for replay prevention).
    pub fn get_nonce(&self, identity: &Address) -> (r: u64)
        ensures
            r == due_nonce(self@, *identity),
    {
        match self.nonces.get(identity) {
            Some(n) => *n,
            None => 0,
        }
    }

    /// Refuses a nonce other than the one that is due.
    fn require_nonce(&self, identity: &Address, nonce: u64) -> (r: Result<(), Revert>)
        ensures
            answers(r, nonce_refusal(self@, *identity, nonce)),
    {
        if nonce != self.get_nonce(identity) {
            return Err(Revert::InvalidNonce);
        }
        Ok(())
    }

    /// Uses a nonce.
    fn consume_nonce(&mut self, identity: &Address, nonce: u64)
        requires
            nonce < u64::MAX,
        ensures
            final(self)@ == consume(old(self)@, *identity, nonce),
    {
        self.nonces.insert(*identity, nonce + 1);
    }

    /// Puts an attestation on record.
    fn record_attestation(&mut self, a: Attestation)
        requires
            a.id < u64::MAX,
        ensures
            final(self)@ == record(old(self)@, a@),
    {
        let subject = a.identity;
        let id: u64 = a.id;
        let mut ids: Vec<u64> = self.subject_ids(&subject);
        ids.push(id);
        let count: u32 = self.subject_count(&subject);
        self.subject_attestations.insert(subject, ids);
        self.subject_attestation_counts.insert(
            subject,
            if count < u32::MAX {
                count + 1
            } else {
                u32::MAX
            },
        );
        self.dedup_keys.insert(a.dedup_key(), true);
        self.attestations.insert(id, a);
        self.attestation_counter = id + 1;
    }

    /// The live attestations of a subject, oldest first.
    fn subject_ids(&self, subject: &Address) -> (r: Vec<u64>)
        ensures
            r@ == live_ids(self@, *subject),
    {
        match self.subject_attestations.get(subject) {
            Some(ids) => {
                let copy = ids.clone();
                assert(copy@ =~= ids@);
                copy
            },
            None => Vec::new(),
        }
    }

    /// The number of live attestations that is kept for a subject.
    fn subject_count(&self, subject: &Address) -> (r: u32)
        ensures
            r == live_count(self@, *subject),
    {
        match self.subject_attestation_counts.get(subject) {
            Some(n) => *n,
            None => 0,
        }
    }

    /// Add a weighted attestation for a subject.
    ///
    /// `weight` is the weight that the weighing of the attester's stake gives the attestation,
    /// or the reason for which that weighing refuses.
    pub fn add_attestation(
        &mut self,
        call: &Call,
        attester: Address,
        subject: Address,
        attestation_data: Vec<u8>,
        nonce: u64,
        weight: Result<u32, Revert>,
    ) -> (r: Result<Outcome<Attestation>, Revert>)
        ensures
            answers(
                r,
                add_refusal(
                    old(self)@,
                    *call,
                    attester,
                    subject,
                    attestation_data@,
                    nonce,
                    weight,
                ),
            ),
            r is Err ==> final(self)@ == old(self)@,
            r matches Ok(o) ==> {
                &&& o.value@ == added(
                    old(self)@,
                    *call,
                    attester,
                    subject,
                    attestation_data@,
                    weight,
                )
                &&& final(self)@ == add_next(
                    old(self)@,
                    *call,
                    attester,
                    subject,
                    attestation_data@,
                    nonce,
                    weight,
                )
                &&& o.effects@ == subject_effects(
                    Event::AttestationAdded { subject, id: o.value.id, attester },
                    subject,
                )
                &&& told(
                    final(self)@,
                    Event::AttestationAdded { subject, id: o.value.id, attester },
                ) =~= seq![o.value@]
            },
    {
        self.require_gate(call, &attester)?;
        if !self.is_attester(&attester) {
            return Err(Revert::Contract(ContractError::UnauthorizedAttester));
        }
        self.require_nonce(&attester, nonce)?;
        let key = AttestationDedupKey {
            verifier: attester,
            identity: subject,
            attestation_data: copy_bytes(&attestation_data),
        };
        if self.dedup_keys.contains(&key) {
            return Err(Revert::Contract(ContractError::DuplicateAttestation));
        }
        let id: u64 = self.attestation_counter;
        if nonce == u64::MAX || id == u64::MAX {
            return Err(Revert::Contract(ContractError::Overflow));
        }
        let weight: u32 = weight?;
        let attestation = Attestation {
            id,
            verifier: attester,
            identity: subject,
            timestamp: call.now,
            weight,
            attestation_data,
            revoked: false,
        };
        self.consume_nonce(&attester, nonce);
        self.record_attestation(attestation.duplicate());
        Ok(
            Outcome {
                value: attestation,
                effects: vec![
                    bump_instance_ttl(),
                    Effect::Publish(Event::AttestationAdded { subject, id, attester }),
                    Effect::CheckConsistency { subject: Some(subject) },
                ],
            },
        )
    }

    /// Refuses a batch with an attester who may not attest.
    fn verify_admission(&self, call: &Call, items: &Vec<WeighedItem>) -> (r: Result<(), Revert>)
        ensures
            answers(r, admission_refusal(self@, *call, items@, 0)),
    {
        let n: usize = items.len();
        let mut i: usize = 0;
        while i < n
            invariant
                i <= n,
                n == items@.len(),
                admission_refusal(self@, *call, items@, 0) == admission_refusal(
                    self@,
                    *call,
                    items@,
                    i as int,
                ),
            decreases n - i,
        {
            let attester = items[i].item.attester;
            if !call.authorized(&attester) {
                return Err(Revert::Unauthorized);
            }
            if !self.is_attester(&attester) {
                return Err(Revert::Contract(ContractError::UnauthorizedAttester));
            }
            self.require_nonce(&attester, items[i].item.nonce)?;
            i += 1;
        }
        Ok(())
    }

    /// Refuses a batch with an item that is on record already.
    fn verify_unrecorded(&self, subject: &Address, items: &Vec<WeighedItem>) -> (r: Result<
        (),
        Revert,
    >)
        ensures
            answers(
                r,
                refuse_if(
                    repeats_attestation(self@, *subject, items@),
                    Revert::Contract(ContractError::DuplicateAttestation),
                ),
            ),
    {
        let n: usize = items.len();
        let mut i: usize = 0;
        while i < n
            invariant
                i <= n,
                n == items@.len(),
                forall|j: int|
                    0 <= j < i ==> !self@.dedup_keys.contains_key(
                        item_key(*subject, (#[trigger] items@[j]).item),
                    ),
            decreases n - i,
        {
            let key = AttestationDedupKey {
                verifier: items[i].item.attester,
                identity: *subject,
                attestation_data: copy_bytes(&items[i].item.attestation_data),
            };
            assert(key@ == item_key(*subject, items@[i as int].item));
            if self.dedup_keys.contains(&key) {
                return Err(Revert::Contract(ContractError::DuplicateAttestation));
            }
            i += 1;
        }
        Ok(())
    }

    /// Add multiple weighted attestations for a subject atomically.
    ///
    /// Takes up to [`MAX_BATCH_ATTESTATION_SIZE`] items of distinct attesters, enforces the
    /// weight cap on the batch as a whole, and publishes a single event.
    pub fn add_attestation_batch(
        &mut self,
        call: &Call,
        subject: Address,
        items: &Vec<WeighedItem>,
    ) -> (r: Result<Outcome<Vec<Attestation>>, Revert>)
        ensures
            answers(r, batch_refusal(old(self)@, *call, subject, items@)),
            r is Err ==> final(self)@ == old(self)@,
            r matches Ok(o) ==> {
                &&& o.value@.len() == items@.len()
                &&& forall|k: int|
                    0 <= k < items@.len() ==> (#[trigger] o.value@[k])@ == batch_attestation(
                        old(self)@,
                        *call,
                        subject,
                        items@,
                        k,
                    )
                &&& final(self)@ == batch_upto(
                    old(self)@,
                    *call,
                    subject,
                    items@,
                    items@.len() as int,
                )
                &&& o.effects@ == subject_effects(
                    Event::AttestationsBatchAdded {
                        subject,
                        first_id: old(self)@.attestation_counter,
                        count: items@.len() as u32,
                    },
                    subject,
                )
                &&& told(
                    final(self)@,
                    Event::AttestationsBatchAdded {
                        subject,
                        first_id: old(self)@.attestation_counter,
                        count: items@.len() as u32,
                    },
                ) =~= Seq::new(o.value@.len(), |k: int| o.value@[k]@)
            },
    {
        self.require_not_paused()?;
        let n: usize = items.len();
        verify_batch_size(n, MAX_BATCH_ATTESTATION_SIZE)?;
        verify_distinct_attesters(items)?;
        self.verify_admission(call, items)?;
        self.verify_unrecorded(&subject, items)?;
        let total: u64 = weigh(items)?;
        if total > self.weight_config.max_weight as u64 {
            return Err(Revert::Contract(ContractError::AttestationWeightExceedsMax));
        }
        if has_last_nonce(items) || self.attestation_counter > u64::MAX - n as u64 {
            return Err(Revert::Contract(ContractError::Overflow));
        }
        let mut attestations: Vec<Attestation> = Vec::new();
        let first_id: u64 = self.attestation_counter;
        let ghost s = self@;
        let mut k: usize = 0;
        proof {
            lemma_weighed(items@, 0);
        }
        while k < n
            invariant
                k <= n <= 64,
                n == items@.len(),
                s.attestation_counter + n <= u64::MAX,
                self.attestation_counter == s.attestation_counter + k,
                self@ == batch_upto(s, *call, subject, items@, k as int),
                attestations@.len() == k,
                forall|j: int|
                    0 <= j < k ==> (#[trigger] attestations@[j])@ == batch_attestation(
                        s,
                        *call,
                        subject,
                        items@,
                        j,
                    ),
                forall|j: int|
                    0 <= j < n ==> (#[trigger] items@[j]).item.nonce < u64::MAX
                        && items@[j].weight is Ok,
            decreases n - k,
        {
            let id: u64 = self.attestation_counter;
            let weight: u32 = match items[k].weight {
                Ok(w) => w,
                Err(e) => {
                    assert(false);
                    return Err(e);
                },
            };
            let attestation = Attestation {
                id,
                verifier: items[k].item.attester,
                identity: subject,
                timestamp: call.now,
                weight,
                attestation_data: copy_bytes(&items[k].item.attestation_data),
                revoked: false,
            };
            assert(attestation@ == batch_attestation(s, *call, subject, items@, k as int));
            self.consume_nonce(&items[k].item.attester, items[k].item.nonce);
            self.record_attestation(attestation.duplicate());
            attestations.push(attestation);
            k += 1;
        }
        proof {
            lemma_batch_on_record(s, *call, subject, items@, n as int);
        }
        Ok(
            Outcome {
                value: attestations,
                effects: vec![
                    bump_instance_ttl(),
                    Effect::Publish(
                        Event::AttestationsBatchAdded { subject, first_id, count: n as u32 },
                    ),
                    Effect::CheckConsistency { subject: Some(subject) },
                ],
            },
        )
    }

    /// Revoke an attestation (only its own attester can revoke). Requires correct nonce.
    pub fn revoke_attestation(
        &mut self,
        call: &Call,
        attester: Address,
        attestation_id: u64,
        nonce: u64,
    ) -> (r: Result<Outcome<()>, Revert>)
        ensures
            transacts(
                old(self)@,
                final(self)@,
                r,
                revoke_refusal(old(self)@, *call, attester, attestation_id, nonce),
                strike(consume(old(self)@, attester, nonce), attestation_id),
                (),
                seq![
                    bump_instance_ttl(),
                    bump_instance_ttl(),
                    Effect::Publish(
                        Event::AttestationRevoked {
                            subject: old(self)@.attestations[attestation_id].identity,
                            id: attestation_id,
                            attester,
                        },
                    ),
                    Effect::CheckConsistency {
                        subject: Some(old(self)@.attestations[attestation_id].identity),
                    },
                ],
            ),
    {
        self.require_gate(call, &attester)?;
        self.require_nonce(&attester, nonce)?;
        let mut attestation = match self.attestations.get(&attestation_id) {
            None => return Err(Revert::Contract(ContractError::AttestationNotFound)),
            Some(a) => a.duplicate(),
        };
        if attestation.verifier != attester {
            return Err(Revert::Contract(ContractError::NotOriginalAttester));
        }
        if attestation.revoked {
            return Err(Revert::Contract(ContractError::AttestationAlreadyRevoked));
        }
        if nonce == u64::MAX {
            return Err(Revert::Contract(ContractError::Overflow));
        }
        self.consume_nonce(&attester, nonce);
        let subject = attestation.identity;
        let key = attestation.dedup_key();
        attestation.revoked = true;
        let ids: Vec<u64> = list_without(&self.subject_ids(&subject), attestation_id);
        let count: u32 = self.subject_count(&subject);
        self.attestations.insert(attestation_id, attestation);
        self.dedup_keys.remove(&key);
        self.subject_attestations.insert(subject, ids);
        self.subject_attestation_counts.insert(
            subject,
            if count > 0 {
                count - 1
            } else {
                0
            },
        );
        Ok(
            Outcome {
                value: (),
                effects: vec![
                    bump_instance_ttl(),
                    bump_instance_ttl(),
                    Effect::Publish(
                        Event::AttestationRevoked { subject, id: attestation_id, attester },
                    ),
                    Effect::CheckConsistency { subject: Some(subject) },
                ],
            },
        )
    }

    /// Get an attestation by ID.
    pub fn get_attestation(&self, attestation_id: u64) -> (r: Result<Outcome<Attestation>, Revert>)
        ensures
            answers(
                r,
                refuse_if(
                    !self@.attestations.contains_key(attestation_id),
                    Revert::Contract(ContractError::AttestationNotFound),
                ),
            ),
            r matches Ok(o) ==> o.value@ == self@.attestations[attestation_id] && o.effects@
                == seq![bump_instance_ttl()],
    {
        match self.attestations.get(&attestation_id) {
            None => Err(Revert::Contract(ContractError::AttestationNotFound)),
            Some(a) => Ok(Outcome { value: a.duplicate(), effects: vec![bump_instance_ttl()] }),
        }
    }

    /// Get all live attestation IDs for a subject.
    pub fn get_subject_attestations(&self, subject: &Address) -> (r: Outcome<Vec<u64>>)
        ensures
            r.value@ == live_ids(self@, *subject),
            r.effects@ == seq![bump_instance_ttl()],
    {
        Outcome { value: self.subject_ids(subject), effects: vec![bump_instance_ttl()] }
    }

    /// Get attestation count for a subject (identity).
    pub fn get_subject_attestation_count(&self, subject: &Address) -> (r: Outcome<u32>)
        ensures
            r.value == live_count(self@, *subject),
            r.effects@ == seq![bump_instance_ttl()],
    {
        Outcome { value: self.subject_count(subject), effects: vec![bump_instance_ttl()] }
    }

    /// Set attester stake (admin only).
    ///
    /// `verdict` is the answer of the weighing rules on the stake.
    pub fn set_attester_stake(
        &mut self,
        call: &Call,
        admin: Address,
        attester: Address,
        amount: i128,
        verdict: Verdict,
    ) -> (r: Result<Outcome<()>, Revert>)
        ensures
            transacts(
                old(self)@,
                final(self)@,
                r,
                first_of(
                    admin_gate_refusal(old(self)@, *call, admin),
                    verdict_refusal(verdict),
                ),
                State {
                    attester_stakes: old(self)@.attester_stakes.insert(attester, amount),
                    ..old(self)@
                },
                (),
                seq![],
            ),
    {
        self.require_admin_gate(call, &admin)?;
        verdict?;
        self.attester_stakes.insert(attester, amount);
        Ok(Outcome { value: (), effects: vec![] })
    }

    /// Set weight config: multiplier_bps, max_weight. Admin only.
    ///
    /// `verdict` is the answer of the weighing rules on the two values.
    pub fn set_weight_config(
        &mut self,
        call: &Call,
        admin: Address,
        multiplier_bps: u32,
        max_weight: u32,
        verdict: Verdict,
    ) -> (r: Result<Outcome<()>, Revert>)
        ensures
            transacts(
                old(self)@,
                final(self)@,
                r,
                first_of(
                    admin_gate_refusal(old(self)@, *call, admin),
                    verdict_refusal(verdict),
                ),
                State {
                    weight_config: WeightConfig { multiplier_bps, max_weight },
                    ..old(self)@
                },
                (),
                seq![],
            ),
    {
        self.require_admin_gate(call, &admin)?;
        verdict?;
        self.weight_config = WeightConfig { multiplier_bps, max_weight };
        Ok(Outcome { value: (), effects: vec![] })
    }

    /// Get weight config (multiplier_bps, max_weight).
    pub fn get_weight_config(&self) -> (r: (u32, u32))
        ensures
            r == (self@.weight_config.multiplier_bps, self@.weight_config.max_weight),
    {
        (self.weight_config.multiplier_bps, self.weight_config.max_weight)
    }
}

/// The total weight of a batch, where the weighing of no item refuses.
fn weigh(items: &Vec<WeighedItem>) -> (r: Result<u64, Revert>)
    requires
        items@.len() <= 64,
    ensures
        answers(r, weighing_refusal(items@, 0)),
        r matches Ok(total) ==> total == total_weight(items@, items@.len() as int),
{
    let n: usize = items.len();
    let mut i: usize = 0;
    let mut total: u64 = 0;
    while i < n
        invariant
            i <= n <= 64,
            n == items@.len(),
            weighing_refusal(items@, 0) == weighing_refusal(items@, i as int),
            total == total_weight(items@, i as int),
            total <= i * 0x1_0000_0000,
        decreases n - i,
    {
        match items[i].weight {
            Ok(w) => {
                total = total + w as u64;
            },
            Err(e) => return Err(e),
        }
        i += 1;
    }
    Ok(total)
}

/// The items of a batch that are on record stand there under consecutive ids.
proof fn lemma_batch_on_record(
    s: State,
    call: Call,
    subject: Address,
    items: Seq<WeighedItem>,
    k: int,
)
    requires
        0 <= k,
        s.attestation_counter + k <= u64::MAX,
    ensures
        forall|j: int|
            0 <= j < k ==> batch_upto(s, call, subject, items, k).attestations[#[trigger] ((
            s.attestation_counter + j) as u64)] == batch_attestation(s, call, subject, items, j),
    decreases k,
{
    if k > 0 {
        lemma_batch_on_record(s, call, subject, items, k - 1);
    }
}

/// In an admitted batch no item is refused.
pub(crate) proof fn lemma_admitted(s: State, call: Call, items: Seq<WeighedItem>, k: int)
    requires
        0 <= k,
        admission_refusal(s, call, items, k) is None,
    ensures
        forall|j: int|
            k <= j < items.len() ==> item_refusal(s, call, (#[trigger] items[j]).item) is None,
    decreases items.len() - k,
{
    if k < items.len() {
        lemma_admitted(s, call, items, k + 1);
    }
}

/// In a batch whose weighing refuses no item, each item has a weight.
pub(crate) proof fn lemma_weighed(items: Seq<WeighedItem>, k: int)
    requires
        0 <= k,
        weighing_refusal(items, k) is None,
    ensures
        forall|j: int| k <= j < items.len() ==> (#[trigger] items[j]).weight is Ok,
    decreases items.len() - k,
{
    if k < items.len() {
        lemma_weighed(items, k + 1);
    }
}

} // verus!
