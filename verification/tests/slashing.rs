//! Slashing and liquidation.
use credence_bond::types::{Parameters, WeightConfig};
use credence_bond::{
    liquidation_reason, Address, AddressKind, Call, ContractError, CredenceBond, Effect, Event,
    Hook, LiquidationReason, Revert, TierThresholds,
};

fn account(n: u128) -> Address {
    Address { kind: AddressKind::Account, hi: 1, lo: n }
}

fn admin() -> Address {
    account(1)
}

fn identity() -> Address {
    account(2)
}

fn call_at(now: u64) -> Call {
    Call {
        now,
        contract: Address { kind: AddressKind::Contract, hi: 7, lo: 7 },
        signers: vec![admin(), identity()],
    }
}

fn bonded(amount: i128, rolling: bool) -> CredenceBond {
    let mut c = CredenceBond::deploy(
        TierThresholds { bronze_max: 1_000, silver_max: 5_000, gold_max: 20_000 },
        Parameters {
            protocol_fee_bps: 0,
            attestation_fee_bps: 0,
            withdrawal_cooldown_secs: 0,
            slash_cooldown_secs: 0,
            bronze_threshold: 0,
            silver_threshold: 0,
            gold_threshold: 0,
            platinum_threshold: 0,
            max_leverage: 1,
        },
        WeightConfig { multiplier_bps: 0, max_weight: 0 },
    );
    c.initialize(&call_at(1), admin(), None).unwrap();
    c.create_bond(&call_at(1_000), identity(), amount, 100, rolling, 50, Ok(())).unwrap();
    c
}

fn bump() -> Effect {
    Effect::ExtendTtl { threshold: 15_768_000, extend_to: 31_536_000 }
}

fn check() -> Effect {
    Effect::CheckConsistency { subject: None }
}

fn coded(e: ContractError) -> Revert {
    Revert::Contract(e)
}

fn salt(text: &str) -> Vec<u8> {
    text.as_bytes().to_vec()
}

#[test]
fn guarded_slash_accumulates() {
    let mut c = bonded(1_000, false);
    c.set_callback(&call_at(2), account(70)).unwrap();
    let done = c.slash_bond(&call_at(1_001), admin(), 300, &vec![]).unwrap();
    assert_eq!(done.value, 300);
    assert_eq!(
        done.effects,
        vec![
            check(),
            Effect::Callback { target: account(70), hook: Hook::OnSlash, amount: 300 },
        ]
    );
    assert_eq!(c.slash_bond(&call_at(1_002), admin(), 700, &vec![]).unwrap().value, 1_000);
    assert_eq!(
        c.slash_bond(&call_at(1_003), admin(), 1, &vec![]).unwrap_err(),
        coded(ContractError::SlashExceedsBond)
    );
    assert_eq!(c.get_identity_state().unwrap().slashed_amount, 1_000);
    assert!(!c.is_locked());
}

#[test]
fn guarded_slash_is_refused() {
    let mut c = bonded(1_000, false);
    assert_eq!(
        c.slash_bond(&call_at(1), identity(), 1, &vec![]).unwrap_err(),
        coded(ContractError::NotAdmin)
    );
    assert_eq!(
        c.slash_bond(&call_at(1), account(9), 1, &vec![]).unwrap_err(),
        Revert::Unauthorized
    );
    c.slash_bond(&call_at(1), admin(), 1, &vec![]).unwrap();
    assert_eq!(
        c.slash_bond(&call_at(1), admin(), i128::MAX, &vec![]).unwrap_err(),
        Revert::ArithmeticOverflow
    );
    c.slash_bond_begin(&call_at(1), admin(), 1, &vec![]).unwrap();
    assert!(c.is_locked());
    assert_eq!(
        c.slash_bond(&call_at(1), admin(), 1, &vec![]).unwrap_err(),
        coded(ContractError::ReentrancyDetected)
    );
    assert_eq!(
        c.collect_fees(&call_at(1), admin(), &vec![]).unwrap_err(),
        coded(ContractError::ReentrancyDetected)
    );
    assert_eq!(
        c.liquidate(&call_at(1), admin()).unwrap_err(),
        coded(ContractError::ReentrancyDetected)
    );
    assert_eq!(
        c.withdraw_bond(&call_at(1), identity()).unwrap_err(),
        coded(ContractError::ReentrancyDetected)
    );
}

#[test]
fn guarded_slash_is_not_repeated_under_one_salt() {
    let mut c = bonded(1_000, false);
    c.slash_bond(&call_at(1_001), admin(), 10, &salt("a")).unwrap();
    assert_eq!(
        c.slash_bond(&call_at(1_002), admin(), 10, &salt("a")).unwrap_err(),
        coded(ContractError::DuplicateIdempotencyKey)
    );
    c.slash_bond(&call_at(1_002), admin(), 10, &salt("b")).unwrap();
    c.slash_bond(&call_at(1_002), admin(), 10, &vec![]).unwrap();
    c.slash_bond(&call_at(1_002), admin(), 10, &vec![]).unwrap();
    c.collect_fees(&call_at(1_002), admin(), &salt("a")).unwrap();
    assert_eq!(c.get_identity_state().unwrap().slashed_amount, 40);
}

#[test]
fn refused_slash_does_not_use_up_its_salt() {
    let mut c = bonded(1_000, false);
    assert!(c.slash_bond(&call_at(1_001), admin(), 2_000, &salt("a")).is_err());
    c.slash_bond(&call_at(1_001), admin(), 200, &salt("a")).unwrap();
}

#[test]
fn treasury_slash_pays_what_it_takes() {
    let mut c = bonded(1_000, false);
    assert_eq!(
        c.slash(&call_at(1_001), admin(), 600, Ok(())).unwrap_err(),
        coded(ContractError::TreasuryNotConfigured)
    );
    let done = c.set_slash_treasury(&call_at(1_001), admin(), account(80)).unwrap();
    assert_eq!(
        done.effects,
        vec![bump(), Effect::Publish(Event::SlashTreasurySet { treasury: account(80) })]
    );
    assert_eq!(c.get_slash_treasury(), Some(account(80)));
    let done = c.slash(&call_at(1_001), admin(), 600, Ok(())).unwrap();
    assert_eq!(done.value.slashed_amount, 600);
    assert_eq!(done.effects, vec![Effect::TransferOut { to: account(80), amount: 600 }]);
    let done = c.slash(&call_at(1_001), admin(), 600, Ok(())).unwrap();
    assert_eq!(done.value.slashed_amount, 1_000);
    assert_eq!(done.effects, vec![Effect::TransferOut { to: account(80), amount: 400 }]);
    assert!(c.slash(&call_at(1_001), admin(), 600, Ok(())).unwrap().effects.is_empty());
    assert_eq!(
        c.slash(&call_at(1_001), admin(), 1_001, Ok(())).unwrap_err(),
        coded(ContractError::SlashExceedsBond)
    );
    assert_eq!(
        c.slash(&call_at(1_001), admin(), 1, Err(Revert::Subsystem(5))).unwrap_err(),
        Revert::Subsystem(5)
    );
    assert_eq!(
        c.slash(&call_at(1_001), identity(), 1, Ok(())).unwrap_err(),
        coded(ContractError::NotAdmin)
    );
}

#[test]
fn liquidation_of_a_fully_slashed_bond() {
    let mut c = bonded(1_000, true);
    assert_eq!(
        c.liquidate(&call_at(9_000), admin()).unwrap_err(),
        Revert::NotEligibleForLiquidation
    );
    c.slash_bond(&call_at(1_001), admin(), 1_000, &vec![]).unwrap();
    let done = c.liquidate(&call_at(1_002), admin()).unwrap();
    assert!(!done.value.active);
    assert_eq!(done.value.bonded_amount, 1_000);
    assert_eq!(
        done.effects,
        vec![
            bump(),
            bump(),
            check(),
            Effect::Publish(Event::BondLiquidated {
                identity: identity(),
                residual: 0,
                reason: LiquidationReason::FullySlashed,
                timestamp: 1_002,
                admin: admin(),
            }),
        ]
    );
    assert!(c.is_liquidated(&identity()));
    assert!(!c.is_locked());
}

#[test]
fn liquidation_of_an_expired_bond_sweeps_the_residual() {
    let mut c = bonded(1_000, false);
    c.slash_bond(&call_at(1_001), admin(), 250, &vec![]).unwrap();
    c.set_token(&call_at(1), admin(), account(50), Ok(())).unwrap();
    let set = c.set_liquidation_treasury(&call_at(1), admin(), account(81)).unwrap();
    assert_eq!(
        set.effects,
        vec![bump(), Effect::Publish(Event::LiquidationTreasurySet { treasury: account(81) })]
    );
    assert_eq!(c.get_liquidation_treasury(), Some(account(81)));
    assert_eq!(
        c.liquidate(&call_at(1_099), admin()).unwrap_err(),
        Revert::NotEligibleForLiquidation
    );
    let done = c.liquidate(&call_at(1_100), admin()).unwrap();
    assert_eq!(
        done.effects,
        vec![
            bump(),
            bump(),
            check(),
            Effect::Sweep { to: account(81), amount: 750 },
            Effect::Publish(Event::BondLiquidated {
                identity: identity(),
                residual: 750,
                reason: LiquidationReason::ExpiredUnrenewed,
                timestamp: 1_100,
                admin: admin(),
            }),
        ]
    );
}

#[test]
fn liquidation_happens_once() {
    let mut c = bonded(1_000, false);
    assert!(!c.is_liquidated(&identity()));
    c.liquidate(&call_at(2_000), admin()).unwrap();
    assert_eq!(
        c.liquidate(&call_at(2_001), admin()).unwrap_err(),
        coded(ContractError::BondNotActive)
    );
    assert_eq!(
        c.slash_bond(&call_at(2_001), admin(), 1, &vec![]).unwrap_err(),
        coded(ContractError::BondNotActive)
    );
    assert_eq!(
        c.withdraw_bond(&call_at(2_001), identity()).unwrap_err(),
        coded(ContractError::BondNotActive)
    );
    c.create_bond(&call_at(3_000), identity(), 5, 100, false, 0, Ok(())).unwrap();
    assert!(c.is_liquidated(&identity()));
}

#[test]
fn liquidation_is_refused() {
    let mut c = bonded(1_000, false);
    assert_eq!(
        c.liquidate(&call_at(2_000), identity()).unwrap_err(),
        coded(ContractError::NotAdmin)
    );
    c.admin = None;
    assert_eq!(
        c.liquidate(&call_at(2_000), admin()).unwrap_err(),
        coded(ContractError::NotInitialized)
    );
    c.bond = None;
    assert_eq!(
        c.liquidate(&call_at(2_000), admin()).unwrap_err(),
        coded(ContractError::BondNotFound)
    );
}

#[test]
fn liquidation_reasons_have_symbols() {
    assert_eq!(LiquidationReason::FullySlashed.symbol(), "fully_slashed");
    assert_eq!(LiquidationReason::ExpiredUnrenewed.symbol(), "expired_unrenewed");
    assert_eq!(liquidation_reason::FULLY_SLASHED, "fully_slashed");
    assert_eq!(liquidation_reason::EXPIRED_UNRENEWED, "expired_unrenewed");
}
