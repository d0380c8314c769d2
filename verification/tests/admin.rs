//! Set-up, configuration, the pause and the hand-over of roles.
use credence_bond::types::{Parameters, WeightConfig};
use credence_bond::{
    Address, AddressKind, BondConfigView, Call, ContractError, CredenceBond, Effect, Event, Revert,
    TierThresholds,
};

fn account(n: u128) -> Address {
    Address { kind: AddressKind::Account, hi: 1, lo: n }
}

fn contract_address() -> Address {
    Address { kind: AddressKind::Contract, hi: 7, lo: 7 }
}

fn admin() -> Address {
    account(1)
}

fn call() -> Call {
    Call { now: 10, contract: contract_address(), signers: vec![admin(), account(2)] }
}

fn deployed() -> CredenceBond {
    CredenceBond::deploy(
        TierThresholds { bronze_max: 1, silver_max: 2, gold_max: 3 },
        Parameters {
            protocol_fee_bps: 1,
            attestation_fee_bps: 2,
            withdrawal_cooldown_secs: 3,
            slash_cooldown_secs: 4,
            bronze_threshold: 5,
            silver_threshold: 6,
            gold_threshold: 7,
            platinum_threshold: 8,
            max_leverage: 9,
        },
        WeightConfig { multiplier_bps: 11, max_weight: 12 },
    )
}

fn initialized() -> CredenceBond {
    let mut c = deployed();
    c.initialize(&call(), admin(), None).unwrap();
    c
}

fn coded(e: ContractError) -> Revert {
    Revert::Contract(e)
}

#[test]
fn contract_is_initialized_once() {
    let mut c = deployed();
    assert!(c.describe_config().is_none());
    assert_eq!(c.initialize(&call(), account(9), None).unwrap_err(), Revert::Unauthorized);
    let done = c.initialize(&call(), admin(), None).unwrap();
    assert!(done.effects.is_empty());
    assert_eq!(
        c.initialize(&call(), account(2), None).unwrap_err(),
        coded(ContractError::AlreadyInitialized)
    );
    assert_eq!(c.describe_config().unwrap().admin, admin());
}

#[test]
fn registry_is_told_of_the_contract() {
    let registered = Effect::Register {
        registry: account(30),
        contract: contract_address(),
        admin: admin(),
    };
    let mut c = deployed();
    assert_eq!(
        c.initialize(&call(), admin(), Some(account(30))).unwrap().effects,
        vec![registered]
    );
    let mut c = deployed();
    assert_eq!(
        c.initialize_with_registry(&call(), admin(), account(30)).unwrap().effects,
        vec![registered]
    );
    assert_eq!(
        c.initialize_with_registry(&call(), admin(), account(30)).unwrap_err(),
        coded(ContractError::AlreadyInitialized)
    );
}

#[test]
fn configuration_is_described() {
    let mut c = initialized();
    assert_eq!(
        c.describe_config(),
        Some(BondConfigView {
            admin: admin(),
            early_exit_treasury: None,
            early_exit_penalty_bps: None,
            weight_multiplier_bps: 11,
            weight_max: 12,
        })
    );
    c.set_early_exit_config(&call(), admin(), account(40), 500).unwrap();
    let view = c.describe_config().unwrap();
    assert_eq!(view.early_exit_treasury, Some(account(40)));
    assert_eq!(view.early_exit_penalty_bps, Some(500));
    c.set_early_exit_config(&call(), admin(), account(40), 10_000).unwrap();
    assert_eq!(c.describe_config().unwrap().early_exit_penalty_bps, Some(10_000));
}

#[test]
fn accepted_tokens_are_set_by_the_admin() {
    let mut c = deployed();
    assert_eq!(
        c.set_accepted_tokens(&call(), admin(), vec![account(5)]).unwrap_err(),
        coded(ContractError::NotInitialized)
    );
    let mut c = initialized();
    assert_eq!(
        c.set_accepted_tokens(&call(), account(2), vec![account(5)]).unwrap_err(),
        coded(ContractError::NotAdmin)
    );
    assert_eq!(
        c.set_accepted_tokens(&call(), admin(), vec![]).unwrap_err(),
        Revert::EmptyTokenList
    );
    c.set_accepted_tokens(&call(), admin(), vec![account(5), account(6)]).unwrap();
    assert_eq!(c.accepted_tokens, vec![account(5), account(6)]);
}

#[test]
fn token_is_set_by_the_admin() {
    let mut c = initialized();
    assert_eq!(
        c.set_token(&call(), account(2), account(5), Ok(())).unwrap_err(),
        coded(ContractError::NotAdmin)
    );
    assert_eq!(
        c.set_token(&call(), admin(), account(5), Err(Revert::Subsystem(9))).unwrap_err(),
        Revert::Subsystem(9)
    );
    c.set_token(&call(), admin(), account(5), Ok(())).unwrap();
    assert_eq!(c.token, Some(account(5)));
}

#[test]
fn admin_role_is_handed_over() {
    let mut c = initialized();
    let done = c.transfer_admin(&call(), admin(), account(2)).unwrap();
    assert_eq!(
        done.effects,
        vec![Effect::Publish(Event::AdminTransferred {
            current_admin: admin(),
            new_admin: account(2),
        })]
    );
    assert_eq!(
        c.set_borrow_frozen(&call(), admin(), true).unwrap_err(),
        coded(ContractError::NotAdmin)
    );
    c.set_borrow_frozen(&call(), account(2), true).unwrap();
}

#[test]
fn admin_handover_is_refused() {
    let zero = Address { kind: AddressKind::Account, hi: 0, lo: 0 };
    assert!(zero.is_zero());
    let mut c = deployed();
    assert_eq!(
        c.transfer_admin(&call(), admin(), account(2)).unwrap_err(),
        coded(ContractError::NotInitialized)
    );
    let mut c = initialized();
    assert_eq!(
        c.transfer_admin(&call(), account(2), admin()).unwrap_err(),
        coded(ContractError::NotAdmin)
    );
    assert_eq!(
        c.transfer_admin(&call(), admin(), admin()).unwrap_err(),
        coded(ContractError::AdminUnchanged)
    );
    assert_eq!(
        c.transfer_admin(&call(), admin(), account(3)).unwrap_err(),
        Revert::Unauthorized
    );
    let signed = Call { signers: vec![admin(), zero], ..call() };
    assert_eq!(
        c.transfer_admin(&signed, admin(), zero).unwrap_err(),
        coded(ContractError::InvalidAdminAddress)
    );
}

#[test]
fn pause_stops_the_contract_and_can_be_lifted() {
    let mut c = initialized();
    assert!(!c.is_paused());
    assert_eq!(c.pause(&call(), admin()).unwrap().value, None);
    assert!(c.is_paused());
    assert_eq!(c.require_not_paused().unwrap_err(), Revert::Paused);
    assert_eq!(c.deposit_fees(1).unwrap_err(), Revert::Paused);
    assert_eq!(c.set_callback(&call(), account(4)).unwrap_err(), Revert::Paused);
    assert_eq!(c.withdraw(&call(), account(2), 1).unwrap_err(), Revert::Paused);
    assert_eq!(c.expire_claims(&call(), account(2), 1).unwrap_err(), Revert::Paused);
    assert_eq!(
        c.create_bond(&call(), account(2), 1, 1, false, 0, Ok(())).unwrap_err(),
        Revert::Paused
    );
    assert_eq!(c.liquidate(&call(), admin()).unwrap_err(), Revert::Paused);
    c.unpause(&call(), admin()).unwrap();
    assert!(!c.is_paused());
    c.deposit_fees(1).unwrap();
}

#[test]
fn pause_is_refused() {
    let mut c = deployed();
    let refused = c.pause(&call(), admin()).unwrap_err();
    assert_eq!(refused, Revert::PauseNotInitialized);
    assert_eq!(refused.message(), Some("not initialized"));
    let mut c = initialized();
    let refused = c.pause(&call(), account(2)).unwrap_err();
    assert_eq!(refused, Revert::PauseNotAdmin);
    assert_eq!(refused.message(), Some("not admin"));
    assert_eq!(c.unpause(&call(), account(9)).unwrap_err(), Revert::Unauthorized);
}

#[test]
fn upgrade_admin_is_handed_over_in_two_steps() {
    let mut c = initialized();
    assert_eq!(c.get_pending_upgrade_admin(), None);
    c.transfer_upgrade_admin(&call(), admin(), account(2), Ok(())).unwrap();
    assert_eq!(c.get_pending_upgrade_admin(), Some(account(2)));
    c.accept_upgrade_admin(&call(), account(2), Ok(())).unwrap();
    assert_eq!(c.get_pending_upgrade_admin(), None);
    assert_eq!(c.upgrade_admin, Some(account(2)));
    c.transfer_upgrade_admin(&call(), account(2), admin(), Ok(())).unwrap();
    c.cancel_upgrade_admin_transfer(&call(), account(2), Ok(())).unwrap();
    assert_eq!(c.get_pending_upgrade_admin(), None);
    assert_eq!(c.upgrade_admin, Some(account(2)));
    assert_eq!(
        c.accept_upgrade_admin(&call(), admin(), Err(Revert::Subsystem(8))).unwrap_err(),
        Revert::Subsystem(8)
    );
}

#[test]
fn parameters_are_read_back() {
    let mut c = initialized();
    assert_eq!(c.get_protocol_fee_bps(), 1);
    c.set_protocol_fee_bps(&call(), admin(), 101, Ok(())).unwrap();
    assert_eq!(c.get_protocol_fee_bps(), 101);
    c.set_protocol_fee_bps_appr(&call(), admin(), 102, Ok(())).unwrap();
    assert_eq!(c.get_protocol_fee_bps(), 102);
    c.set_attestation_fee_bps(&call(), admin(), 103, Ok(())).unwrap();
    assert_eq!(c.get_attestation_fee_bps(), 103);
    c.set_attestation_fee_bps_appr(&call(), admin(), 104, Ok(())).unwrap();
    assert_eq!(c.get_attestation_fee_bps(), 104);
    c.set_withdrawal_cooldown_secs(&call(), admin(), 105, Ok(())).unwrap();
    assert_eq!(c.get_withdrawal_cooldown_secs(), 105);
    c.set_withdrawal_cd_secs_appr(&call(), admin(), 106, Ok(())).unwrap();
    assert_eq!(c.get_withdrawal_cooldown_secs(), 106);
    c.set_slash_cooldown_secs(&call(), admin(), 107, Ok(())).unwrap();
    assert_eq!(c.get_slash_cooldown_secs(), 107);
    c.set_slash_cd_secs_appr(&call(), admin(), 108, Ok(())).unwrap();
    assert_eq!(c.get_slash_cooldown_secs(), 108);
    c.set_bronze_threshold(&call(), admin(), 109, Ok(())).unwrap();
    assert_eq!(c.get_bronze_threshold(), 109);
    c.set_bronze_threshold_appr(&call(), admin(), 110, Ok(())).unwrap();
    assert_eq!(c.get_bronze_threshold(), 110);
    c.set_silver_threshold(&call(), admin(), 111, Ok(())).unwrap();
    assert_eq!(c.get_silver_threshold(), 111);
    c.set_silver_threshold_appr(&call(), admin(), 112, Ok(())).unwrap();
    assert_eq!(c.get_silver_threshold(), 112);
    c.set_gold_threshold(&call(), admin(), 113, Ok(())).unwrap();
    assert_eq!(c.get_gold_threshold(), 113);
    c.set_gold_threshold_appr(&call(), admin(), 114, Ok(())).unwrap();
    assert_eq!(c.get_gold_threshold(), 114);
    c.set_platinum_threshold(&call(), admin(), 115, Ok(())).unwrap();
    assert_eq!(c.get_platinum_threshold(), 115);
    c.set_platinum_threshold_appr(&call(), admin(), 116, Ok(())).unwrap();
    assert_eq!(c.get_platinum_threshold(), 116);
    c.set_max_leverage(&call(), admin(), 117, Ok(())).unwrap();
    assert_eq!(c.get_max_leverage(), 117);
    c.set_max_leverage_appr(&call(), admin(), 118, Ok(())).unwrap();
    assert_eq!(c.get_max_leverage(), 118);
    assert_eq!(c.get_protocol_fee_bps(), 102);
}

#[test]
fn upgrade_admin_handover_needs_a_signature() {
    let mut c = initialized();
    let unsigned = Call { signers: vec![], ..call() };
    assert_eq!(
        c.transfer_upgrade_admin(&unsigned, admin(), account(2), Ok(())).unwrap_err(),
        Revert::Unauthorized
    );
    c.transfer_upgrade_admin(&call(), admin(), account(2), Ok(())).unwrap();
    assert_eq!(
        c.accept_upgrade_admin(&unsigned, account(2), Ok(())).unwrap_err(),
        Revert::Unauthorized
    );
    assert_eq!(
        c.cancel_upgrade_admin_transfer(&unsigned, admin(), Ok(())).unwrap_err(),
        Revert::Unauthorized
    );
    assert_eq!(c.get_pending_upgrade_admin(), Some(account(2)));
}

#[test]
fn callback_is_set_by_the_admin() {
    let mut c = deployed();
    assert_eq!(
        c.set_callback(&call(), account(4)).unwrap_err(),
        coded(ContractError::NotInitialized)
    );
    let mut c = initialized();
    let unsigned = Call { signers: vec![account(2)], ..call() };
    assert_eq!(c.set_callback(&unsigned, account(4)).unwrap_err(), Revert::Unauthorized);
    assert_eq!(c.callback, None);
    c.set_callback(&call(), account(4)).unwrap();
    assert_eq!(c.callback, Some(account(4)));
}

#[test]
fn parameters_are_refused() {
    let mut c = initialized();
    let unsigned = Call { signers: vec![], ..call() };
    assert_eq!(
        c.set_max_leverage(&unsigned, admin(), 3, Ok(())).unwrap_err(),
        Revert::Unauthorized
    );
    assert_eq!(
        c.set_max_leverage(&call(), admin(), 0, Err(Revert::Subsystem(6))).unwrap_err(),
        Revert::Subsystem(6)
    );
    assert_eq!(c.get_max_leverage(), 9);
    c.pause(&call(), admin()).unwrap();
    assert_eq!(c.set_max_leverage(&call(), admin(), 3, Ok(())).unwrap_err(), Revert::Paused);
}
