//! Fees, transfers, drains and claims.
use credence_bond::effect::STORAGE_TTL_EXTEND_TO;
use credence_bond::emergency::DRAIN_TIMELOCK_SECONDS;
use credence_bond::transfer::MAX_BATCH_TRANSFER_SIZE;
use credence_bond::types::{DrainRecord, Parameters, PendingClaim, WeightConfig};
use credence_bond::{
    Address, AddressKind, BatchTransferItem, Call, ContractError, CredenceBond, Effect, Event,
    Hook, Revert, TierThresholds,
};

fn account(n: u128) -> Address {
    Address { kind: AddressKind::Account, hi: 1, lo: n }
}

fn contract_address() -> Address {
    Address { kind: AddressKind::Contract, hi: 7, lo: 7 }
}

fn admin() -> Address {
    account(1)
}

fn call_at(now: u64) -> Call {
    Call { now, contract: contract_address(), signers: vec![admin(), account(2)] }
}

fn initialized() -> CredenceBond {
    let mut c = CredenceBond::deploy(
        TierThresholds { bronze_max: 1, silver_max: 2, gold_max: 3 },
        Parameters {
            protocol_fee_bps: 0,
            attestation_fee_bps: 0,
            withdrawal_cooldown_secs: 0,
            slash_cooldown_secs: 0,
            bronze_threshold: 0,
            silver_threshold: 0,
            gold_threshold: 0,
            platinum_threshold: 0,
            max_leverage: 1,
        },
        WeightConfig { multiplier_bps: 0, max_weight: 0 },
    );
    c.initialize(&call_at(1), admin(), None).unwrap();
    c
}

fn coded(e: ContractError) -> Revert {
    Revert::Contract(e)
}

fn pay(n: u128, amount: i128) -> BatchTransferItem {
    BatchTransferItem { recipient: account(n), amount }
}

fn claim(claim_id: u64, expires_at: u64) -> PendingClaim {
    PendingClaim { claim_id, amount: 10, expires_at }
}

fn ids(claims: &Vec<PendingClaim>) -> Vec<u64> {
    claims.iter().map(|c| c.claim_id).collect()
}

#[test]
fn lifetime_is_extended_by_half() {
    assert_eq!(STORAGE_TTL_EXTEND_TO, 31_536_000);
    assert_eq!(
        credence_bond::effect::bump_instance_ttl(),
        Effect::ExtendTtl { threshold: 15_768_000, extend_to: 31_536_000 }
    );
}

#[test]
fn fees_are_deposited_and_collected() {
    let mut c = initialized();
    c.set_callback(&call_at(2), account(70)).unwrap();
    c.deposit_fees(30).unwrap();
    c.deposit_fees(12).unwrap();
    let done = c.collect_fees(&call_at(5), admin(), &vec![1]).unwrap();
    assert_eq!(done.value, 42);
    assert_eq!(
        done.effects,
        vec![Effect::Callback { target: account(70), hook: Hook::OnCollect, amount: 42 }]
    );
    assert_eq!(
        c.collect_fees(&call_at(5), admin(), &vec![1]).unwrap_err(),
        coded(ContractError::DuplicateIdempotencyKey)
    );
    assert_eq!(c.collect_fees(&call_at(5), admin(), &vec![2]).unwrap().value, 0);
    assert!(!c.is_locked());
}

#[test]
fn fees_are_refused() {
    let mut c = initialized();
    assert_eq!(c.deposit_fees(0).unwrap_err(), Revert::AmountNotPositive);
    assert_eq!(c.deposit_fees(-4).unwrap_err(), Revert::AmountNotPositive);
    c.deposit_fees(i128::MAX).unwrap();
    assert_eq!(c.deposit_fees(1).unwrap_err(), Revert::ArithmeticOverflow);
    assert_eq!(
        c.collect_fees(&call_at(5), account(2), &vec![]).unwrap_err(),
        coded(ContractError::NotAdmin)
    );
    c.collect_fees_begin(&call_at(5), admin(), &vec![]).unwrap();
    assert!(c.is_locked());
    assert_eq!(
        c.collect_fees(&call_at(5), admin(), &vec![]).unwrap_err(),
        coded(ContractError::ReentrancyDetected)
    );
}

#[test]
fn batch_transfer_pays_each_recipient() {
    let mut c = initialized();
    let done = c.batch_transfer(&call_at(5), admin(), &vec![pay(10, 3), pay(11, 4)]).unwrap();
    assert_eq!(done.value, 2);
    assert_eq!(
        done.effects,
        vec![
            Effect::TransferOut { to: account(10), amount: 3 },
            Effect::TransferOut { to: account(11), amount: 4 },
            Effect::Publish(Event::BatchTransfer { admin: admin(), count: 2, total: 7 }),
        ]
    );
}

#[test]
fn batch_transfer_is_refused_as_a_whole() {
    let mut c = initialized();
    let call = call_at(5);
    assert_eq!(MAX_BATCH_TRANSFER_SIZE, 50);
    assert_eq!(
        c.batch_transfer(&call, admin(), &vec![]).unwrap_err(),
        coded(ContractError::EmptyBatch)
    );
    let many: Vec<BatchTransferItem> = (0..51).map(|n| pay(n, 1)).collect();
    assert_eq!(
        c.batch_transfer(&call, admin(), &many).unwrap_err(),
        coded(ContractError::BatchTooLarge)
    );
    assert_eq!(c.batch_transfer(&call, admin(), &many[..50].to_vec()).unwrap().value, 50);
    assert_eq!(
        c.batch_transfer(&call, admin(), &vec![pay(10, 3), pay(11, 0)]).unwrap_err(),
        Revert::AmountNotPositive
    );
    let own = BatchTransferItem { recipient: contract_address(), amount: 1 };
    let refused = c.batch_transfer(&call, admin(), &vec![pay(10, 3), own]).unwrap_err();
    assert_eq!(refused, Revert::SelfTransfer);
    assert_eq!(refused.message(), Some("recipient cannot be the contract itself"));
    assert_eq!(
        c.batch_transfer(&call, admin(), &vec![pay(10, i128::MAX), pay(11, 1)]).unwrap_err(),
        Revert::TotalAmountOverflow
    );
    assert_eq!(
        c.batch_transfer(&call, account(2), &vec![pay(10, 3)]).unwrap_err(),
        coded(ContractError::NotAdmin)
    );
}

#[test]
fn drain_waits_for_its_timelock() {
    let mut c = initialized();
    let treasury = account(90);
    c.emergency_treasury = Some(treasury);
    assert_eq!(DRAIN_TIMELOCK_SECONDS, 86_400);
    assert_eq!(
        c.schedule_emergency_drain(&call_at(100), admin(), 86_400).unwrap_err(),
        coded(ContractError::EmergencyDrainNotPermitted)
    );
    c.pause(&call_at(100), admin()).unwrap();
    assert_eq!(
        c.schedule_emergency_drain(&call_at(100), admin(), 86_399).unwrap_err(),
        coded(ContractError::TimelockNotReady)
    );
    assert_eq!(
        c.schedule_emergency_drain(&call_at(100), admin(), u64::MAX).unwrap_err(),
        coded(ContractError::Overflow)
    );
    assert_eq!(c.get_drain_eta(), None);
    c.schedule_emergency_drain(&call_at(100), admin(), 86_400).unwrap();
    assert_eq!(c.get_drain_eta(), Some(86_500));
    assert_eq!(
        c.emergency_drain_to_treasury(&call_at(86_499), admin(), 5, treasury).unwrap_err(),
        coded(ContractError::TimelockNotReady)
    );
    let done = c.emergency_drain_to_treasury(&call_at(86_500), admin(), 5, treasury).unwrap();
    assert_eq!(done.value, 1);
    assert_eq!(
        done.effects,
        vec![
            Effect::TransferOut { to: treasury, amount: 5 },
            Effect::Publish(Event::EmergencyDrain {
                id: 1,
                admin: admin(),
                recipient: treasury,
                amount: 5,
                timestamp: 86_500,
            }),
        ]
    );
}

#[test]
fn drains_are_numbered_and_kept() {
    let mut c = initialized();
    let treasury = account(90);
    c.emergency_treasury = Some(treasury);
    assert_eq!(c.get_latest_drain_id(), 0);
    assert_eq!(c.get_drain_record(1).unwrap_err(), Revert::UnknownDrainRecord);
    c.pause(&call_at(1), admin()).unwrap();
    c.schedule_emergency_drain(&call_at(1), admin(), 86_400).unwrap();
    let late = call_at(100_000);
    assert_eq!(c.emergency_drain_to_treasury(&late, admin(), 5, treasury).unwrap().value, 1);
    assert_eq!(c.emergency_drain_to_treasury(&late, admin(), 6, treasury).unwrap().value, 2);
    assert_eq!(c.get_latest_drain_id(), 2);
    assert_eq!(
        c.get_drain_record(1).unwrap(),
        DrainRecord {
            id: 1,
            admin: admin(),
            recipient: treasury,
            amount: 5,
            timestamp: 100_000,
        }
    );
    assert_eq!(c.get_drain_record(2).unwrap().amount, 6);
    assert_eq!(c.get_drain_record(3).unwrap_err(), Revert::UnknownDrainRecord);
    c.latest_drain_id = u64::MAX;
    assert_eq!(
        c.emergency_drain_to_treasury(&late, admin(), 5, treasury).unwrap_err(),
        coded(ContractError::Overflow)
    );
}

#[test]
fn drain_is_refused() {
    let mut c = initialized();
    let treasury = account(90);
    let late = call_at(100_000);
    assert_eq!(
        c.emergency_drain_to_treasury(&late, admin(), 5, treasury).unwrap_err(),
        Revert::EmergencyConfigNotSet
    );
    c.emergency_treasury = Some(treasury);
    assert_eq!(
        c.emergency_drain_to_treasury(&late, admin(), 5, treasury).unwrap_err(),
        coded(ContractError::EmergencyDrainNotPermitted)
    );
    c.pause(&late, admin()).unwrap();
    assert_eq!(
        c.emergency_drain_to_treasury(&late, admin(), 5, treasury).unwrap_err(),
        coded(ContractError::EmergencyDrainNotPermitted)
    );
    c.schedule_emergency_drain(&call_at(1), admin(), 86_400).unwrap();
    assert_eq!(
        c.emergency_drain_to_treasury(&late, admin(), 0, treasury).unwrap_err(),
        Revert::AmountNotPositive
    );
    assert_eq!(
        c.emergency_drain_to_treasury(&late, admin(), 5, account(91)).unwrap_err(),
        coded(ContractError::TreasuryBeneficiaryMismatch)
    );
    assert_eq!(
        c.emergency_drain_to_treasury(&late, account(2), 5, treasury).unwrap_err(),
        coded(ContractError::NotAdmin)
    );
    assert_eq!(
        c.cancel_emergency_drain(&late, account(2)).unwrap_err(),
        coded(ContractError::NotAdmin)
    );
    c.cancel_emergency_drain(&late, admin()).unwrap();
    assert_eq!(c.get_drain_eta(), None);
    assert_eq!(
        c.emergency_drain_to_treasury(&late, admin(), 5, treasury).unwrap_err(),
        coded(ContractError::EmergencyDrainNotPermitted)
    );
    c.unpause(&late, admin()).unwrap();
    c.drain_eta = Some(1);
    assert_eq!(
        c.emergency_drain_to_treasury(&late, admin(), 5, treasury).unwrap_err(),
        coded(ContractError::EmergencyDrainNotPermitted)
    );
}

#[test]
fn sweep_removes_lapsed_claims() {
    let mut c = initialized();
    let user = account(5);
    c.claims.insert(user, vec![claim(1, 50), claim(2, 0), claim(3, 100), claim(4, 99)]);
    let done = c.expire_claims(&call_at(100), user, 10).unwrap();
    assert_eq!(done.value, 2);
    assert_eq!(
        done.effects,
        vec![Effect::Publish(Event::ClaimsExpired { user, count: 2 })]
    );
    assert_eq!(ids(c.claims.get(&user).unwrap()), vec![2, 3]);
    assert_eq!(c.expire_claims(&call_at(100), user, 10).unwrap().value, 0);
    assert_eq!(c.expire_claims(&call_at(101), user, 10).unwrap().value, 1);
    assert_eq!(c.expire_claims(&call_at(u64::MAX), user, 10).unwrap().value, 0);
    assert_eq!(ids(c.claims.get(&user).unwrap()), vec![2]);
    assert_eq!(c.expire_claims(&call_at(1), account(6), 10).unwrap().value, 0);
}

#[test]
fn sweep_is_bounded() {
    let mut c = initialized();
    let user = account(5);
    c.claims.insert(user, (1..81).map(|n| claim(n, 1)).collect());
    assert_eq!(c.expire_claims(&call_at(2), user, 3).unwrap().value, 3);
    assert_eq!(c.claims.get(&user).unwrap().len(), 77);
    assert_eq!(c.expire_claims(&call_at(2), user, 1_000).unwrap().value, 50);
    assert_eq!(c.claims.get(&user).unwrap().len(), 27);
    assert_eq!(c.expire_claims(&call_at(2), user, 0).unwrap().value, 0);
}

#[test]
fn pages_join_to_all_claims() {
    let mut c = initialized();
    let user = account(5);
    c.claims.insert(user, (1..24).map(|n| claim(3 * n, 0)).collect());
    for limit in [1, 2, 5, 22, 23, 24, 1_000] {
        let mut joined: Vec<u64> = vec![];
        let mut start_after: u64 = 0;
        loop {
            let (page, cursor) = c.get_pending_claims_page(&user, start_after, limit, 10);
            assert!(page.len() <= 10 && page.len() <= limit as usize);
            joined.extend(ids(&page));
            match cursor {
                Some(next) => start_after = next,
                None => break,
            }
        }
        assert_eq!(joined, ids(c.claims.get(&user).unwrap()));
    }
}

#[test]
fn claims_are_read_page_by_page() {
    let mut c = initialized();
    let user = account(5);
    c.claims.insert(user, (1..8).map(|n| claim(n, 0)).collect());
    let (page, cursor) = c.get_pending_claims_page(&user, 0, 3, 100);
    assert_eq!(ids(&page), vec![1, 2, 3]);
    assert_eq!(cursor, Some(3));
    let (page, cursor) = c.get_pending_claims_page(&user, 3, 3, 100);
    assert_eq!(ids(&page), vec![4, 5, 6]);
    assert_eq!(cursor, Some(6));
    let (page, cursor) = c.get_pending_claims_page(&user, 6, 3, 100);
    assert_eq!(ids(&page), vec![7]);
    assert_eq!(cursor, None);
    let (page, cursor) = c.get_pending_claims_page(&user, 7, 3, 100);
    assert!(page.is_empty());
    assert_eq!(cursor, None);
    let (page, cursor) = c.get_pending_claims_page(&user, 0, 50, 2);
    assert_eq!(ids(&page), vec![1, 2]);
    assert_eq!(cursor, Some(2));
    let (page, cursor) = c.get_pending_claims_page(&user, 0, 7, 100);
    assert_eq!(page.len(), 7);
    assert_eq!(cursor, None);
    let (page, cursor) = c.get_pending_claims_page(&account(6), 0, 7, 100);
    assert!(page.is_empty());
    assert_eq!(cursor, None);
}
