//! The bond from its creation to its end.
use credence_bond::lifecycle::PenaltyQuery;
use credence_bond::types::{Parameters, WeightConfig};
use credence_bond::{
    Address, AddressKind, BondTier, Call, ContractError, CredenceBond, Effect, Event, Hook, Revert,
    TierThresholds,
};

fn account(n: u128) -> Address {
    Address { kind: AddressKind::Account, hi: 1, lo: n }
}

fn contract_address() -> Address {
    Address { kind: AddressKind::Contract, hi: 7, lo: 7 }
}

fn admin() -> Address {
    account(1)
}

fn identity() -> Address {
    account(2)
}

fn call_at(now: u64) -> Call {
    Call { now, contract: contract_address(), signers: vec![admin(), identity()] }
}

fn deployed() -> CredenceBond {
    let thresholds = TierThresholds { bronze_max: 1_000, silver_max: 5_000, gold_max: 20_000 };
    let parameters = Parameters {
        protocol_fee_bps: 50,
        attestation_fee_bps: 10,
        withdrawal_cooldown_secs: 0,
        slash_cooldown_secs: 0,
        bronze_threshold: 1_000,
        silver_threshold: 5_000,
        gold_threshold: 20_000,
        platinum_threshold: 50_000,
        max_leverage: 10,
    };
    let weights = WeightConfig { multiplier_bps: 10_000, max_weight: 1_000 };
    CredenceBond::deploy(thresholds, parameters, weights)
}

fn initialized() -> CredenceBond {
    let mut c = deployed();
    c.initialize(&call_at(1), admin(), None).unwrap();
    c
}

fn with_bond_of(amount: i128, duration: u64, rolling: bool, notice: u64) -> CredenceBond {
    let mut c = initialized();
    c.create_bond(&call_at(1_000), identity(), amount, duration, rolling, notice, Ok(())).unwrap();
    c
}

fn bump() -> Effect {
    Effect::ExtendTtl { threshold: 15_768_000, extend_to: 31_536_000 }
}

fn check() -> Effect {
    Effect::CheckConsistency { subject: None }
}

fn coded(e: ContractError) -> Revert {
    Revert::Contract(e)
}

#[test]
fn new_bond_is_active_and_unslashed() {
    let mut c = initialized();
    let done = c.create_bond(&call_at(1_000), identity(), 1000, 86_400, false, 0, Ok(())).unwrap();
    assert!(done.value.active);
    assert_eq!(done.value.bonded_amount, 1000);
    assert_eq!(done.value.slashed_amount, 0);
    assert_eq!(done.value.bond_start, 1_000);
    assert!(!done.value.is_rolling);
    let tier = Effect::Publish(Event::TierChanged {
        identity: identity(),
        from: BondTier::Bronze,
        to: BondTier::Silver,
    });
    assert_eq!(done.effects, vec![bump(), tier, check()]);
    assert_eq!(c.get_identity_state().unwrap().bonded_amount, 1000);
}

#[test]
fn new_bond_pulls_tokens_in_first() {
    let mut c = initialized();
    c.set_token(&call_at(1), admin(), account(50), Ok(())).unwrap();
    let done = c.create_bond(&call_at(1_000), identity(), 500, 3600, false, 0, Ok(())).unwrap();
    assert_eq!(
        done.effects,
        vec![Effect::TransferIn { from: identity(), amount: 500 }, bump(), check()]
    );
}

#[test]
fn new_bond_is_refused() {
    let mut c = initialized();
    let stranger = account(99);
    assert_eq!(
        c.create_bond(&call_at(1), stranger, 1, 1, false, 0, Ok(())).unwrap_err(),
        Revert::Unauthorized
    );
    assert_eq!(
        c.create_bond(&call_at(2), identity(), 1, u64::MAX, false, 0, Ok(())).unwrap_err(),
        Revert::BondEndWouldOverflow
    );
    assert_eq!(
        c.create_bond(&call_at(2), identity(), 1, 1, false, 0, Err(Revert::Subsystem(7)))
            .unwrap_err(),
        Revert::Subsystem(7)
    );
    c.set_borrow_frozen(&call_at(2), admin(), true).unwrap();
    assert!(c.is_borrow_frozen());
    assert_eq!(
        c.create_bond(&call_at(2), identity(), 1, 1, false, 0, Ok(())).unwrap_err(),
        Revert::BorrowFrozen
    );
    assert_eq!(c.get_identity_state().unwrap_err(), coded(ContractError::BondNotFound));
    assert_eq!(Revert::BondEndWouldOverflow.message(), Some("bond end timestamp would overflow"));
}

#[test]
fn describe_bond_shows_only_the_owner() {
    let mut c = with_bond_of(6_000, 3600, false, 0);
    c.slash_bond(&call_at(1_001), admin(), 2_000, &vec![]).unwrap();
    let view = c.describe_bond(&identity()).unwrap();
    assert_eq!(view.bonded_amount, 6_000);
    assert_eq!(view.slashed_amount, 2_000);
    assert_eq!(view.available_amount, 4_000);
    assert_eq!(view.tier, BondTier::Gold);
    assert_eq!(c.get_tier().unwrap(), BondTier::Silver);
    assert!(c.describe_bond(&account(77)).is_none());
    assert!(deployed().describe_bond(&identity()).is_none());
}

#[test]
fn tiers_at_their_bounds() {
    for (amount, tier) in [
        (1, BondTier::Bronze),
        (999, BondTier::Bronze),
        (1_000, BondTier::Silver),
        (4_999, BondTier::Silver),
        (5_000, BondTier::Gold),
        (19_999, BondTier::Gold),
        (20_000, BondTier::Platinum),
        (i128::MAX, BondTier::Platinum),
    ] {
        assert_eq!(with_bond_of(amount, 3600, false, 0).get_tier().unwrap(), tier);
    }
}

#[test]
fn withdrawal_after_the_lockup() {
    let mut c = with_bond_of(6_000, 3600, false, 0);
    assert_eq!(
        c.withdraw(&call_at(4_599), identity(), 10).unwrap_err(),
        Revert::LockupRunning
    );
    let done = c.withdraw(&call_at(4_600), identity(), 2_000).unwrap();
    assert_eq!(done.value.bonded_amount, 4_000);
    let tier = Effect::Publish(Event::TierChanged {
        identity: identity(),
        from: BondTier::Gold,
        to: BondTier::Silver,
    });
    assert_eq!(done.effects, vec![tier, bump(), check()]);
    assert_eq!(
        c.withdraw(&call_at(4_600), identity(), 4_001).unwrap_err(),
        coded(ContractError::InsufficientBalance)
    );
    c.withdraw(&call_at(4_600), identity(), 4_000).unwrap();
    assert_eq!(c.get_identity_state().unwrap().bonded_amount, 0);
}

#[test]
fn withdrawal_is_limited_to_what_slashing_left() {
    let mut c = with_bond_of(1_000, 3600, false, 0);
    c.slash_bond(&call_at(1_001), admin(), 400, &vec![]).unwrap();
    assert_eq!(
        c.withdraw(&call_at(9_000), identity(), 601).unwrap_err(),
        coded(ContractError::InsufficientBalance)
    );
    assert_eq!(c.withdraw(&call_at(9_000), identity(), 600).unwrap().value.bonded_amount, 400);
}

#[test]
fn withdrawal_is_refused() {
    let mut c = initialized();
    assert_eq!(
        c.withdraw(&call_at(1), identity(), 1).unwrap_err(),
        coded(ContractError::BondNotFound)
    );
    for amount in [0, -1, i128::MIN] {
        let refused = c.withdraw(&call_at(1), identity(), amount).unwrap_err();
        assert_eq!(refused, Revert::AmountNotPositive);
        assert_eq!(refused.message(), Some("amount must be positive"));
    }
    let mut c = with_bond_of(100, 10, true, 5);
    c.bond.as_mut().unwrap().bond_duration = u64::MAX;
    assert_eq!(c.withdraw(&call_at(1), identity(), 1).unwrap_err(), Revert::BondEndOverflow);
    let mut c = with_bond_of(100, 10, false, 0);
    c.bond.as_mut().unwrap().bonded_amount = i128::MIN;
    c.bond.as_mut().unwrap().slashed_amount = 1;
    assert_eq!(
        c.withdraw(&call_at(2_000), identity(), 1).unwrap_err(),
        coded(ContractError::SlashExceedsBond)
    );
}

#[test]
fn rolling_bond_needs_notice() {
    let mut c = with_bond_of(1_000, 100, true, 50);
    let late = call_at(5_000);
    assert_eq!(
        c.withdraw(&late, identity(), 1).unwrap_err(),
        Revert::WithdrawalNotRequested
    );
    assert_eq!(
        c.withdraw_bond(&late, identity()).unwrap_err(),
        Revert::WithdrawalNotRequested
    );
    let done = c.request_withdrawal(&late, identity()).unwrap();
    assert_eq!(done.value.withdrawal_requested_at, 5_000);
    assert_eq!(
        done.effects,
        vec![
            Effect::Publish(Event::WithdrawalRequested {
                identity: identity(),
                requested_at: 5_000,
            }),
            check(),
        ]
    );
    assert_eq!(
        c.request_withdrawal(&call_at(5_001), identity()).unwrap_err(),
        coded(ContractError::WithdrawalAlreadyRequested)
    );
    assert_eq!(
        c.withdraw(&call_at(5_049), identity(), 1).unwrap_err(),
        Revert::NoticePeriodNotElapsed
    );
    assert_eq!(
        c.withdraw_bond(&call_at(5_049), identity()).unwrap_err(),
        Revert::NoticePeriodNotElapsed
    );
    assert_eq!(c.withdraw(&call_at(5_050), identity(), 400).unwrap().value.bonded_amount, 600);
    assert_eq!(c.withdraw_bond(&call_at(5_050), identity()).unwrap().value, 600);
}

#[test]
fn notice_period_may_not_overflow() {
    let mut c = with_bond_of(1_000, 100, true, u64::MAX);
    c.request_withdrawal(&call_at(2_000), identity()).unwrap();
    assert_eq!(
        c.withdraw(&call_at(u64::MAX), identity(), 1).unwrap_err(),
        Revert::NoticePeriodOverflow
    );
}

#[test]
fn fixed_bond_takes_no_request() {
    let mut c = with_bond_of(1_000, 100, false, 0);
    assert_eq!(
        c.request_withdrawal(&call_at(2_000), identity()).unwrap_err(),
        coded(ContractError::NotRollingBond)
    );
    assert_eq!(
        initialized().request_withdrawal(&call_at(2_000), identity()).unwrap_err(),
        coded(ContractError::BondNotFound)
    );
}

#[test]
fn renewal_of_a_rolling_bond() {
    let mut c = with_bond_of(1_000, 100, true, 50);
    let before = c.renew_if_rolling(&call_at(1_099), identity()).unwrap();
    assert_eq!(before.value.bond_start, 1_000);
    assert!(before.effects.is_empty());
    let done = c.renew_if_rolling(&call_at(1_100), identity()).unwrap();
    assert_eq!(done.value.bond_start, 1_100);
    assert_eq!(done.value.bond_duration, 100);
    assert_eq!(
        done.effects,
        vec![
            bump(),
            Effect::Publish(Event::BondRenewed {
                identity: identity(),
                bond_start: 1_100,
                bond_duration: 100,
            }),
            check(),
        ]
    );
    assert!(c.renew_if_rolling(&call_at(1_199), identity()).unwrap().effects.is_empty());
    c.request_withdrawal(&call_at(1_150), identity()).unwrap();
    assert!(c.renew_if_rolling(&call_at(9_999), identity()).unwrap().effects.is_empty());
    let mut fixed = with_bond_of(1_000, 100, false, 0);
    assert!(fixed.renew_if_rolling(&call_at(9_999), identity()).unwrap().effects.is_empty());
    assert_eq!(fixed.get_identity_state().unwrap().bond_start, 1_000);
}

#[test]
#[should_panic(expected = "EarlyExitConfigNotSet")]
fn withdraw_early_panics_if_config_not_set() {
    let mut c = initialized();
    c.set_token(&call_at(1), admin(), account(50), Ok(())).unwrap();
    c.create_bond(&call_at(1_000), identity(), 10_000, 3600, false, 0, Ok(())).unwrap();
    let later = call_at(1_000 + 100);
    c.withdraw_early(&later, identity(), 1000, 0).unwrap();
}

#[test]
fn early_withdrawal_is_split_between_treasury_and_owner() {
    let treasury = account(60);
    let mut c = with_bond_of(10_000, 3600, false, 0);
    c.set_early_exit_config(&call_at(1), admin(), treasury, 500).unwrap();
    let call = call_at(1_100);
    assert_eq!(
        c.early_exit_query(&call, identity(), 1_000).unwrap(),
        PenaltyQuery { amount: 1_000, remaining: 3_500, bond_duration: 3_600, penalty_bps: 500 }
    );
    let done = c.withdraw_early(&call, identity(), 6_000, 48).unwrap();
    assert_eq!(done.value.bonded_amount, 4_000);
    assert_eq!(
        done.effects,
        vec![
            Effect::Publish(Event::EarlyExitPenalty {
                identity: identity(),
                amount: 6_000,
                penalty: 48,
                treasury,
            }),
            Effect::Publish(Event::TierChanged {
                identity: identity(),
                from: BondTier::Gold,
                to: BondTier::Silver,
            }),
            Effect::FeeTransferOut { to: treasury, amount: 48 },
            Effect::TransferOut { to: identity(), amount: 5_952 },
            check(),
        ]
    );
    assert!(!c.is_locked());
}

#[test]
fn early_exit_penalty_is_asked_on_less_as_time_passes() {
    let mut c = with_bond_of(10_000, 3600, false, 0);
    c.set_early_exit_config(&call_at(1), admin(), account(60), 500).unwrap();
    let at = |now: u64| c.early_exit_query(&call_at(now), identity(), 1_000).unwrap();
    assert_eq!(
        at(1_000),
        PenaltyQuery { amount: 1_000, remaining: 3_600, bond_duration: 3_600, penalty_bps: 500 }
    );
    assert_eq!(at(2_800), PenaltyQuery { remaining: 1_800, ..at(1_000) });
    assert_eq!(at(4_599), PenaltyQuery { remaining: 1, ..at(1_000) });
    let mut paid: Vec<(i128, i128)> = vec![];
    for now in [1_000, 2_800, 4_599] {
        let mut c = with_bond_of(10_000, 3600, false, 0);
        c.set_early_exit_config(&call_at(1), admin(), account(60), 500).unwrap();
        let q = c.early_exit_query(&call_at(now), identity(), 1_000).unwrap();
        let penalty = q.amount * q.penalty_bps as i128 * q.remaining as i128
            / (10_000 * q.bond_duration as i128);
        let done = c.withdraw_early(&call_at(now), identity(), 1_000, penalty).unwrap();
        let mut shares = (0, 0);
        for effect in done.effects {
            match effect {
                Effect::FeeTransferOut { amount, .. } => shares.0 += amount,
                Effect::TransferOut { amount, .. } => shares.1 += amount,
                _ => {}
            }
        }
        paid.push(shares);
    }
    assert_eq!(paid, vec![(50, 950), (25, 975), (0, 1_000)]);
}

#[test]
fn early_withdrawal_needs_a_signature() {
    let mut c = with_bond_of(10_000, 3600, false, 0);
    c.set_early_exit_config(&call_at(1), admin(), account(60), 500).unwrap();
    let unsigned = Call { signers: vec![], ..call_at(1_100) };
    for who in [identity(), account(99)] {
        assert_eq!(
            c.early_exit_query(&unsigned, who, 10_000).unwrap_err(),
            Revert::Unauthorized
        );
        assert_eq!(
            c.withdraw_early(&unsigned, who, 10_000, 486).unwrap_err(),
            Revert::Unauthorized
        );
    }
    assert_eq!(c.get_identity_state().unwrap().bonded_amount, 10_000);
    c.withdraw_early(&call_at(1_100), identity(), 10_000, 486).unwrap();
    assert_eq!(c.get_identity_state().unwrap().bonded_amount, 0);
}

#[test]
fn early_withdrawal_holds_the_lock_while_it_pays() {
    let mut c = with_bond_of(10_000, 3600, false, 0);
    c.set_early_exit_config(&call_at(1), admin(), account(60), 500).unwrap();
    let begun = c.withdraw_early_begin(&call_at(1_100), identity(), 1_000, 0).unwrap();
    assert_eq!(begun.effects.len(), 2);
    assert!(c.is_locked());
    assert_eq!(c.get_identity_state().unwrap().bonded_amount, 9_000);
    assert_eq!(
        c.withdraw_early(&call_at(1_100), identity(), 1, 0).unwrap_err(),
        coded(ContractError::ReentrancyDetected)
    );
    c.release_lock();
    assert!(!c.is_locked());
}

#[test]
fn early_withdrawal_is_refused() {
    let mut c = with_bond_of(10_000, 3600, false, 0);
    c.set_early_exit_config(&call_at(1), admin(), account(60), 500).unwrap();
    let call = call_at(1_100);
    assert_eq!(
        c.withdraw_early(&call, identity(), 10_001, 0).unwrap_err(),
        coded(ContractError::InsufficientBalance)
    );
    assert_eq!(
        c.withdraw_early(&call_at(4_600), identity(), 1, 0).unwrap_err(),
        coded(ContractError::LockupNotExpired)
    );
    assert_eq!(
        c.withdraw_early(&call, identity(), 100, 101).unwrap_err(),
        coded(ContractError::InvariantViolation)
    );
    assert_eq!(
        c.withdraw_early(&call, identity(), 100, -1).unwrap_err(),
        coded(ContractError::InvariantViolation)
    );
    assert_eq!(
        c.withdraw_early(&call, identity(), -1, i128::MAX).unwrap_err(),
        coded(ContractError::InvariantViolation)
    );
    assert_eq!(
        c.withdraw_early(&call, identity(), -2, i128::MAX).unwrap_err(),
        coded(ContractError::Underflow)
    );
    assert_eq!(
        initialized().withdraw_early(&call, identity(), 1, 0).unwrap_err(),
        coded(ContractError::BondNotFound)
    );
    assert_eq!(
        c.set_early_exit_config(&call, admin(), account(60), 10_001).unwrap_err(),
        Revert::PenaltyRateOutOfRange
    );
}

#[test]
fn top_up_grows_the_bond() {
    let mut c = with_bond_of(600, 3600, false, 0);
    c.set_token(&call_at(1), admin(), account(50), Ok(())).unwrap();
    let done = c.top_up(&call_at(1_001), identity(), 400, Ok(())).unwrap();
    assert_eq!(done.value.bonded_amount, 1_000);
    assert_eq!(
        done.effects,
        vec![
            Effect::TransferIn { from: identity(), amount: 400 },
            Effect::Publish(Event::TierChanged {
                identity: identity(),
                from: BondTier::Bronze,
                to: BondTier::Silver,
            }),
            bump(),
            check(),
        ]
    );
    assert!(!c.is_locked());
}

#[test]
fn top_up_is_refused() {
    let mut c = initialized();
    assert_eq!(
        c.top_up(&call_at(1), identity(), 1, Ok(())).unwrap_err(),
        coded(ContractError::BondNotFound)
    );
    let mut c = with_bond_of(i128::MAX, 3600, false, 0);
    assert_eq!(
        c.top_up(&call_at(1), identity(), 1, Ok(())).unwrap_err(),
        coded(ContractError::Overflow)
    );
    assert!(!c.is_locked());
    assert_eq!(
        c.top_up(&call_at(1), identity(), 0, Err(Revert::Subsystem(3))).unwrap_err(),
        Revert::Subsystem(3)
    );
    assert!(!c.is_locked());
    c.top_up_begin(&call_at(1), identity(), 0).unwrap();
    assert!(c.is_locked());
    assert_eq!(
        c.top_up(&call_at(1), identity(), 0, Ok(())).unwrap_err(),
        coded(ContractError::ReentrancyDetected)
    );
}

#[test]
fn extension_moves_the_end() {
    let mut c = with_bond_of(600, 3600, false, 0);
    let done = c.extend_duration(&call_at(1_001), identity(), 400).unwrap();
    assert_eq!(done.value.bond_duration, 4_000);
    assert_eq!(done.effects, vec![bump(), check()]);
    assert_eq!(c.withdraw(&call_at(4_999), identity(), 1).unwrap_err(), Revert::LockupRunning);
    c.withdraw(&call_at(5_000), identity(), 1).unwrap();
    assert_eq!(
        c.extend_duration(&call_at(1), identity(), u64::MAX).unwrap_err(),
        coded(ContractError::Overflow)
    );
    assert_eq!(
        c.extend_duration(&call_at(1), identity(), u64::MAX - 4_999).unwrap_err(),
        coded(ContractError::Overflow)
    );
    c.extend_duration(&call_at(1), identity(), u64::MAX - 5_000).unwrap();
}

#[test]
fn closing_pays_what_is_left_and_is_final() {
    let mut c = with_bond_of(1_000, 3600, false, 0);
    c.slash_bond(&call_at(1_001), admin(), 300, &vec![]).unwrap();
    c.set_callback(&call_at(2), account(70)).unwrap();
    let done = c.withdraw_bond(&call_at(1_002), identity()).unwrap();
    assert_eq!(done.value, 700);
    assert_eq!(
        done.effects,
        vec![
            bump(),
            check(),
            Effect::Callback { target: account(70), hook: Hook::OnWithdraw, amount: 700 },
        ]
    );
    let bond = c.get_identity_state().unwrap();
    assert_eq!(bond.bonded_amount, 0);
    assert_eq!(bond.slashed_amount, 300);
    assert!(!bond.active);
    assert!(!c.is_locked());
    assert!(!c.is_liquidated(&identity()));
    assert_eq!(
        c.withdraw_bond(&call_at(1_003), identity()).unwrap_err(),
        coded(ContractError::BondNotActive)
    );
}

#[test]
fn closing_is_refused() {
    let mut c = with_bond_of(1_000, 3600, false, 0);
    assert_eq!(
        c.withdraw_bond(&call_at(1), admin()).unwrap_err(),
        coded(ContractError::NotBondOwner)
    );
    assert_eq!(c.withdraw_bond(&call_at(1), account(9)).unwrap_err(), Revert::Unauthorized);
    c.bond.as_mut().unwrap().slashed_amount = -1;
    c.bond.as_mut().unwrap().bonded_amount = i128::MAX;
    assert_eq!(
        c.withdraw_bond(&call_at(1), identity()).unwrap_err(),
        Revert::ArithmeticOverflow
    );
    c.bond.as_mut().unwrap().slashed_amount = 0;
    c.withdraw_bond_begin(&call_at(1), identity()).unwrap();
    assert_eq!(
        c.withdraw_bond(&call_at(1), identity()).unwrap_err(),
        coded(ContractError::ReentrancyDetected)
    );
}

#[test]
fn withdrawal_after_top_up_restores_the_bond() {
    let mut c = with_bond_of(600, 100, false, 0);
    let before = c.get_identity_state().unwrap();
    c.top_up(&call_at(1_001), identity(), 250, Ok(())).unwrap();
    c.withdraw(&call_at(1_200), identity(), 250).unwrap();
    assert_eq!(c.get_identity_state().unwrap(), before);
}
