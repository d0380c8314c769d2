//! Attesters and attestations.
use credence_bond::attestation::{WeighedItem, MAX_BATCH_ATTESTATION_SIZE};
use credence_bond::types::{Parameters, WeightConfig};
use credence_bond::{
    Address, AddressKind, AttestationBatchItem, Call, ContractError, CredenceBond, Effect, Event,
    Revert, TierThresholds,
};

fn account(n: u128) -> Address {
    Address { kind: AddressKind::Account, hi: 1, lo: n }
}

fn admin() -> Address {
    account(1)
}

fn subject() -> Address {
    account(2)
}

fn attester(n: u128) -> Address {
    account(100 + n)
}

fn call_at(now: u64) -> Call {
    let mut signers = vec![admin()];
    for n in 0..70 {
        signers.push(attester(n));
    }
    Call { now, contract: Address { kind: AddressKind::Contract, hi: 7, lo: 7 }, signers }
}

fn contract() -> CredenceBond {
    let mut c = CredenceBond::deploy(
        TierThresholds { bronze_max: 1, silver_max: 2, gold_max: 3 },
        Parameters {
            protocol_fee_bps: 0,
            attestation_fee_bps: 0,
            withdrawal_cooldown_secs: 0,
            slash_cooldown_secs: 0,
            bronze_threshold: 0,
            silver_threshold: 0,
            gold_threshold: 0,
            platinum_threshold: 0,
            max_leverage: 1,
        },
        WeightConfig { multiplier_bps: 10_000, max_weight: 100 },
    );
    c.initialize(&call_at(1), admin(), None).unwrap();
    for n in 0..66 {
        c.register_attester(&call_at(1), attester(n)).unwrap();
    }
    c
}

fn bump() -> Effect {
    Effect::ExtendTtl { threshold: 15_768_000, extend_to: 31_536_000 }
}

fn coded(e: ContractError) -> Revert {
    Revert::Contract(e)
}

fn data(text: &str) -> Vec<u8> {
    text.as_bytes().to_vec()
}

fn item(n: u128, text: &str, nonce: u64, weight: u32) -> WeighedItem {
    WeighedItem {
        item: AttestationBatchItem {
            attester: attester(n),
            attestation_data: data(text),
            nonce,
        },
        weight: Ok(weight),
    }
}

#[test]
fn attester_registration() {
    let mut c = contract();
    let newcomer = account(500);
    assert!(!c.is_attester(&newcomer));
    let done = c.register_attester(&call_at(2), newcomer).unwrap();
    assert_eq!(
        done.effects,
        vec![Effect::Publish(Event::AttesterRegistered { attester: newcomer })]
    );
    assert!(c.is_attester(&newcomer));
    let done = c.unregister_attester(&call_at(2), newcomer).unwrap();
    assert_eq!(
        done.effects,
        vec![Effect::Publish(Event::AttesterUnregistered { attester: newcomer })]
    );
    assert!(!c.is_attester(&newcomer));
    let unsigned = Call { signers: vec![], ..call_at(2) };
    assert_eq!(c.register_attester(&unsigned, newcomer).unwrap_err(), Revert::Unauthorized);
    c.admin = None;
    assert_eq!(
        c.register_attester(&call_at(2), newcomer).unwrap_err(),
        coded(ContractError::NotInitialized)
    );
}

#[test]
fn attestation_is_recorded() {
    let mut c = contract();
    let done = c
        .add_attestation(&call_at(77), attester(0), subject(), data("kyc:verified"), 0, Ok(9))
        .unwrap();
    assert_eq!(done.value.id, 0);
    assert_eq!(done.value.verifier, attester(0));
    assert_eq!(done.value.identity, subject());
    assert_eq!(done.value.timestamp, 77);
    assert_eq!(done.value.weight, 9);
    assert_eq!(done.value.attestation_data, data("kyc:verified"));
    assert!(!done.value.revoked);
    assert_eq!(
        done.effects,
        vec![
            bump(),
            Effect::Publish(Event::AttestationAdded {
                subject: subject(),
                id: 0,
                attester: attester(0),
            }),
            Effect::CheckConsistency { subject: Some(subject()) },
        ]
    );
    let read = c.get_attestation(0).unwrap();
    assert_eq!(read.value.attestation_data, data("kyc:verified"));
    assert_eq!(read.effects, vec![bump()]);
    assert_eq!(c.get_subject_attestations(&subject()).value, vec![0]);
    assert_eq!(c.get_subject_attestation_count(&subject()).value, 1);
    assert_eq!(c.get_subject_attestation_count(&account(3)).value, 0);
    assert_eq!(c.get_nonce(&attester(0)), 1);
    assert_eq!(c.get_nonce(&attester(1)), 0);
}

#[test]
fn attestation_is_refused() {
    let mut c = contract();
    let call = call_at(5);
    assert_eq!(
        c.add_attestation(&call, attester(69), subject(), data("x"), 0, Ok(1)).unwrap_err(),
        coded(ContractError::UnauthorizedAttester)
    );
    assert_eq!(
        c.add_attestation(&call, account(9), subject(), data("x"), 0, Ok(1)).unwrap_err(),
        Revert::Unauthorized
    );
    assert_eq!(
        c.add_attestation(&call, attester(0), subject(), data("x"), 1, Ok(1)).unwrap_err(),
        Revert::InvalidNonce
    );
    assert_eq!(
        c.add_attestation(
            &call,
            attester(0),
            subject(),
            data("x"),
            0,
            Err(coded(ContractError::AttestationWeightExceedsMax)),
        )
        .unwrap_err(),
        coded(ContractError::AttestationWeightExceedsMax)
    );
    assert_eq!(c.get_nonce(&attester(0)), 0);
    c.attestation_counter = u64::MAX;
    assert_eq!(
        c.add_attestation(&call, attester(0), subject(), data("x"), 0, Ok(1)).unwrap_err(),
        coded(ContractError::Overflow)
    );
    assert_eq!(c.get_attestation(0).unwrap_err(), coded(ContractError::AttestationNotFound));
}

#[test]
fn last_nonce_is_never_used() {
    let mut c = contract();
    c.nonces.insert(attester(0), u64::MAX);
    assert_eq!(
        c.add_attestation(&call_at(5), attester(0), subject(), data("x"), u64::MAX, Ok(1))
            .unwrap_err(),
        coded(ContractError::Overflow)
    );
}

#[test]
fn duplicate_is_told_before_the_last_nonce() {
    let mut c = contract();
    let call = call_at(5);
    c.add_attestation(&call, attester(0), subject(), data("x"), 0, Ok(1)).unwrap();
    c.nonces.insert(attester(0), u64::MAX);
    assert_eq!(
        c.add_attestation(&call, attester(0), subject(), data("x"), u64::MAX, Ok(1))
            .unwrap_err(),
        coded(ContractError::DuplicateAttestation)
    );
    assert_eq!(
        c.revoke_attestation(&call, attester(0), 9, u64::MAX).unwrap_err(),
        coded(ContractError::AttestationNotFound)
    );
    assert_eq!(
        c.revoke_attestation(&call, attester(0), 0, u64::MAX).unwrap_err(),
        coded(ContractError::Overflow)
    );
    assert_eq!(
        c.add_attestation_batch(&call, subject(), &vec![item(0, "y", u64::MAX, 1)]).unwrap_err(),
        coded(ContractError::Overflow)
    );
    assert_eq!(
        c.add_attestation_batch(&call, subject(), &vec![item(0, "x", u64::MAX, 1)]).unwrap_err(),
        coded(ContractError::DuplicateAttestation)
    );
}

#[test]
fn revocation_restores_list_and_count() {
    let mut c = contract();
    let call = call_at(5);
    c.add_attestation(&call, attester(1), subject(), data("x"), 0, Ok(1)).unwrap();
    let list = c.get_subject_attestations(&subject()).value;
    let count = c.get_subject_attestation_count(&subject()).value;
    let id = c
        .add_attestation(&call, attester(0), subject(), data("y"), 0, Ok(1))
        .unwrap()
        .value
        .id;
    c.revoke_attestation(&call, attester(0), id, 1).unwrap();
    assert_eq!(c.get_subject_attestations(&subject()).value, list);
    assert_eq!(c.get_subject_attestation_count(&subject()).value, count);
}

#[test]
fn duplicate_attestation_is_refused_until_revoked() {
    let mut c = contract();
    let call = call_at(5);
    c.add_attestation(&call, attester(0), subject(), data("x"), 0, Ok(1)).unwrap();
    assert_eq!(
        c.add_attestation(&call, attester(0), subject(), data("x"), 1, Ok(1)).unwrap_err(),
        coded(ContractError::DuplicateAttestation)
    );
    c.add_attestation(&call, attester(0), subject(), data("y"), 1, Ok(1)).unwrap();
    c.add_attestation(&call, attester(1), subject(), data("x"), 0, Ok(1)).unwrap();
    c.add_attestation(&call, attester(0), account(3), data("x"), 2, Ok(1)).unwrap();
    c.revoke_attestation(&call, attester(0), 0, 3).unwrap();
    let again = c.add_attestation(&call, attester(0), subject(), data("x"), 4, Ok(1)).unwrap();
    assert_eq!(again.value.id, 4);
    assert_eq!(c.get_subject_attestations(&subject()).value, vec![1, 2, 4]);
}

#[test]
fn replayed_attestation_is_refused() {
    let mut c = contract();
    let call = call_at(5);
    c.add_attestation(&call, attester(0), subject(), data("x"), 0, Ok(1)).unwrap();
    assert_eq!(
        c.add_attestation(&call, attester(0), account(3), data("z"), 0, Ok(1)).unwrap_err(),
        Revert::InvalidNonce
    );
}

#[test]
fn revocation_strikes_the_attestation_off() {
    let mut c = contract();
    let call = call_at(5);
    c.add_attestation(&call, attester(0), subject(), data("x"), 0, Ok(1)).unwrap();
    c.add_attestation(&call, attester(1), subject(), data("x"), 0, Ok(1)).unwrap();
    let done = c.revoke_attestation(&call, attester(0), 0, 1).unwrap();
    assert_eq!(
        done.effects,
        vec![
            bump(),
            bump(),
            Effect::Publish(Event::AttestationRevoked {
                subject: subject(),
                id: 0,
                attester: attester(0),
            }),
            Effect::CheckConsistency { subject: Some(subject()) },
        ]
    );
    assert!(c.get_attestation(0).unwrap().value.revoked);
    assert_eq!(c.get_subject_attestations(&subject()).value, vec![1]);
    assert_eq!(c.get_subject_attestation_count(&subject()).value, 1);
    assert_eq!(c.get_nonce(&attester(0)), 2);
}

#[test]
fn revocation_is_refused() {
    let mut c = contract();
    let call = call_at(5);
    c.add_attestation(&call, attester(0), subject(), data("x"), 0, Ok(1)).unwrap();
    assert_eq!(
        c.revoke_attestation(&call, attester(0), 7, 1).unwrap_err(),
        coded(ContractError::AttestationNotFound)
    );
    assert_eq!(
        c.revoke_attestation(&call, attester(1), 0, 0).unwrap_err(),
        coded(ContractError::NotOriginalAttester)
    );
    assert_eq!(
        c.revoke_attestation(&call, attester(0), 0, 0).unwrap_err(),
        Revert::InvalidNonce
    );
    c.revoke_attestation(&call, attester(0), 0, 1).unwrap();
    assert_eq!(
        c.revoke_attestation(&call, attester(0), 0, 2).unwrap_err(),
        coded(ContractError::AttestationAlreadyRevoked)
    );
}

#[test]
fn batch_records_all_items_in_order() {
    let mut c = contract();
    let call = call_at(6);
    let items = vec![item(0, "a", 0, 40), item(1, "b", 0, 30), item(2, "a", 0, 30)];
    let done = c.add_attestation_batch(&call, subject(), &items).unwrap();
    assert_eq!(done.value.len(), 3);
    for (k, a) in done.value.iter().enumerate() {
        assert_eq!(a.id, k as u64);
        assert_eq!(a.verifier, attester(k as u128));
        assert_eq!(a.identity, subject());
    }
    assert_eq!(done.value[1].weight, 30);
    assert_eq!(
        done.effects,
        vec![
            bump(),
            Effect::Publish(Event::AttestationsBatchAdded {
                subject: subject(),
                first_id: 0,
                count: 3,
            }),
            Effect::CheckConsistency { subject: Some(subject()) },
        ]
    );
    assert_eq!(c.get_subject_attestations(&subject()).value, vec![0, 1, 2]);
    assert_eq!(c.get_subject_attestation_count(&subject()).value, 3);
    assert_eq!(c.get_nonce(&attester(2)), 1);
}

#[test]
fn batch_equals_its_items_one_by_one() {
    let call = call_at(6);
    let mut batched = contract();
    batched
        .add_attestation_batch(&call, subject(), &vec![item(0, "a", 0, 4), item(1, "b", 0, 5)])
        .unwrap();
    let mut single = contract();
    single.add_attestation(&call, attester(0), subject(), data("a"), 0, Ok(4)).unwrap();
    single.add_attestation(&call, attester(1), subject(), data("b"), 0, Ok(5)).unwrap();
    for id in 0..2 {
        let x = batched.get_attestation(id).unwrap().value;
        let y = single.get_attestation(id).unwrap().value;
        assert_eq!(x.verifier, y.verifier);
        assert_eq!(x.weight, y.weight);
        assert_eq!(x.attestation_data, y.attestation_data);
    }
    assert_eq!(
        batched.get_subject_attestations(&subject()).value,
        single.get_subject_attestations(&subject()).value
    );
    assert_eq!(batched.get_nonce(&attester(1)), single.get_nonce(&attester(1)));
}

#[test]
fn batch_size_is_limited() {
    let mut c = contract();
    let call = call_at(6);
    assert_eq!(MAX_BATCH_ATTESTATION_SIZE, 64);
    assert_eq!(
        c.add_attestation_batch(&call, subject(), &vec![]).unwrap_err(),
        coded(ContractError::EmptyBatch)
    );
    let too_many: Vec<WeighedItem> = (0..65).map(|n| item(n, "a", 0, 1)).collect();
    assert_eq!(
        c.add_attestation_batch(&call, subject(), &too_many).unwrap_err(),
        coded(ContractError::BatchTooLarge)
    );
    let full: Vec<WeighedItem> = (0..64).map(|n| item(n, "a", 0, 1)).collect();
    assert_eq!(c.add_attestation_batch(&call, subject(), &full).unwrap().value.len(), 64);
}

#[test]
fn batch_is_refused_as_a_whole() {
    let mut c = contract();
    let call = call_at(6);
    let refused = c
        .add_attestation_batch(&call, subject(), &vec![item(0, "a", 0, 1), item(0, "b", 1, 1)])
        .unwrap_err();
    assert_eq!(refused, Revert::DuplicateAttesterInBatch);
    assert_eq!(refused.message(), Some("duplicate attester in batch"));
    assert_eq!(
        c.add_attestation_batch(&call, subject(), &vec![item(0, "a", 0, 1), item(69, "b", 0, 1)])
            .unwrap_err(),
        coded(ContractError::UnauthorizedAttester)
    );
    assert_eq!(
        c.add_attestation_batch(&call, subject(), &vec![item(0, "a", 0, 1), item(1, "b", 3, 1)])
            .unwrap_err(),
        Revert::InvalidNonce
    );
    assert_eq!(
        c.add_attestation_batch(&call, subject(), &vec![item(0, "a", 0, 60), item(1, "b", 0, 41)])
            .unwrap_err(),
        coded(ContractError::AttestationWeightExceedsMax)
    );
    let mut heavy = item(1, "b", 0, 1);
    heavy.weight = Err(Revert::Subsystem(4));
    assert_eq!(
        c.add_attestation_batch(&call, subject(), &vec![item(0, "a", 0, 60), heavy]).unwrap_err(),
        Revert::Subsystem(4)
    );
    let unsigned = Call { signers: vec![attester(0)], ..call_at(6) };
    assert_eq!(
        c.add_attestation_batch(&unsigned, subject(), &vec![item(0, "a", 0, 1), item(1, "b", 0, 1)])
            .unwrap_err(),
        Revert::Unauthorized
    );
    c.add_attestation(&call, attester(1), subject(), data("b"), 0, Ok(1)).unwrap();
    assert_eq!(
        c.add_attestation_batch(&call, subject(), &vec![item(0, "a", 0, 1), item(1, "b", 1, 1)])
            .unwrap_err(),
        coded(ContractError::DuplicateAttestation)
    );
    assert_eq!(c.get_nonce(&attester(0)), 0);
    assert_eq!(c.get_subject_attestation_count(&subject()).value, 1);
    c.attestation_counter = u64::MAX - 1;
    assert_eq!(
        c.add_attestation_batch(&call, subject(), &vec![item(0, "a", 0, 1), item(2, "b", 0, 1)])
            .unwrap_err(),
        coded(ContractError::Overflow)
    );
}

#[test]
fn weights_and_stakes_are_set_by_the_admin() {
    let mut c = contract();
    let call = call_at(6);
    c.set_weight_config(&call, admin(), 5_000, 7, Ok(())).unwrap();
    assert_eq!(c.get_weight_config(), (5_000, 7));
    assert_eq!(
        c.set_weight_config(&call, attester(0), 1, 1, Ok(())).unwrap_err(),
        coded(ContractError::NotAdmin)
    );
    assert_eq!(
        c.set_weight_config(&call, admin(), 1, 1, Err(Revert::Subsystem(1))).unwrap_err(),
        Revert::Subsystem(1)
    );
    assert_eq!(c.get_weight_config(), (5_000, 7));
    c.set_attester_stake(&call, admin(), attester(0), 900, Ok(())).unwrap();
    assert_eq!(c.attester_stakes.get(&attester(0)), Some(&900));
    assert_eq!(
        c.set_attester_stake(&call, admin(), attester(0), -1, Err(Revert::Subsystem(2)))
            .unwrap_err(),
        Revert::Subsystem(2)
    );
}
