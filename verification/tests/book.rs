//! The book of bonds.
use credence_bond::book::validate_and_create_bond_struct;
use credence_bond::{
    Address, AddressKind, Bond, BondBook, Call, ContractError, Effect, Event, Revert,
};

fn account(n: u128) -> Address {
    Address { kind: AddressKind::Account, hi: 1, lo: n }
}

fn admin() -> Address {
    account(1)
}

fn alice() -> Address {
    account(2)
}

fn bob() -> Address {
    account(3)
}

fn call_at(now: u64) -> Call {
    Call {
        now,
        contract: Address { kind: AddressKind::Contract, hi: 7, lo: 7 },
        signers: vec![admin(), alice(), bob()],
    }
}

fn book() -> BondBook {
    let mut b = BondBook::new();
    b.initialize(&call_at(1), admin()).unwrap();
    b
}

fn coded(e: ContractError) -> Revert {
    Revert::Contract(e)
}

#[test]
fn book_is_initialized_once() {
    let unsigned = Call { signers: vec![], ..call_at(1) };
    assert_eq!(
        BondBook::new().initialize(&unsigned, admin()).unwrap_err(),
        Revert::Unauthorized
    );
    let mut b = book();
    assert_eq!(
        b.initialize(&call_at(1), bob()).unwrap_err(),
        coded(ContractError::AlreadyInitialized)
    );
    assert_eq!(b.admin, Some(admin()));
    b.paused = true;
    assert_eq!(b.initialize(&call_at(1), bob()).unwrap_err(), Revert::Paused);
    assert_eq!(b.require_not_paused().unwrap_err(), Revert::Paused);
}

#[test]
fn book_tokens_are_set_by_the_admin() {
    let mut b = BondBook::new();
    assert_eq!(
        b.set_accepted_tokens(&call_at(1), admin(), vec![bob()]).unwrap_err(),
        coded(ContractError::NotAdmin)
    );
    let mut b = book();
    assert_eq!(
        b.set_accepted_tokens(&call_at(1), admin(), vec![]).unwrap_err(),
        Revert::EmptyTokenList
    );
    b.set_accepted_tokens(&call_at(1), admin(), vec![bob()]).unwrap();
    assert_eq!(b.accepted_tokens, vec![bob()]);
}

#[test]
fn terms_are_validated() {
    assert_eq!(
        validate_and_create_bond_struct(5, 100, 10, true, 10),
        Ok(Bond {
            amount: 100,
            bond_start: 5,
            duration: 10,
            is_rolling: true,
            notice_period_duration: 10,
        })
    );
    assert_eq!(
        validate_and_create_bond_struct(5, 0, 0, true, 0),
        Err(ContractError::InvalidBondAmount)
    );
    assert_eq!(
        validate_and_create_bond_struct(5, 1, 0, true, 0),
        Err(ContractError::InvalidBondDuration)
    );
    assert_eq!(
        validate_and_create_bond_struct(5, 1, u64::MAX, true, 0),
        Err(ContractError::InvalidNoticePeriod)
    );
    assert_eq!(
        validate_and_create_bond_struct(5, 1, u64::MAX, true, 1),
        Err(ContractError::Overflow)
    );
}

#[test]
fn book_opens_one_bond_for_each_identity() {
    let mut b = book();
    let done = b.create_bond(&call_at(5), alice(), 100, 10, false, 0).unwrap();
    assert_eq!(done.value.bond_start, 5);
    assert_eq!(
        done.effects,
        vec![
            Effect::TransferIn { from: alice(), amount: 100 },
            Effect::Publish(Event::BondCreated {
                identity: alice(),
                amount: 100,
                duration: 10,
                is_rolling: false,
                timestamp: 5,
            }),
        ]
    );
    assert_eq!(
        b.create_bond(&call_at(6), alice(), 1, 1, false, 0).unwrap_err(),
        coded(ContractError::BondAlreadyExists)
    );
    assert_eq!(
        b.create_bond(&call_at(6), bob(), 0, 1, false, 0).unwrap_err(),
        coded(ContractError::InvalidBondAmount)
    );
    b.create_bond(&call_at(6), bob(), 1, 1, false, 0).unwrap();
    assert_eq!(b.get_bond(&alice()).unwrap().bond.amount, 100);
    assert_eq!(b.get_bond(&account(9)).unwrap_err(), coded(ContractError::BondNotFound));
    assert_eq!(
        b.create_bond(&call_at(6), account(9), 1, 1, false, 0).unwrap_err(),
        Revert::Unauthorized
    );
}

#[test]
fn book_bond_grows() {
    let mut b = book();
    b.create_bond(&call_at(5), alice(), 100, 10, false, 0).unwrap();
    let done = b.top_up(&call_at(6), alice(), 50).unwrap();
    assert_eq!(
        done.effects,
        vec![
            Effect::TransferIn { from: alice(), amount: 50 },
            Effect::Publish(Event::BondIncreased {
                identity: alice(),
                amount: 50,
                total: 150,
                timestamp: 6,
            }),
        ]
    );
    assert_eq!(
        b.top_up(&call_at(6), alice(), 0).unwrap_err(),
        coded(ContractError::InvalidBondAmount)
    );
    assert_eq!(
        b.top_up(&call_at(6), bob(), 1).unwrap_err(),
        coded(ContractError::BondNotFound)
    );
    assert_eq!(
        b.top_up(&call_at(6), alice(), i128::MAX).unwrap_err(),
        coded(ContractError::Overflow)
    );
    let done = b.extend_duration(&call_at(7), alice(), 5).unwrap();
    assert_eq!(
        done.effects,
        vec![Effect::Publish(Event::DurationExtended {
            identity: alice(),
            duration: 15,
            timestamp: 7,
        })]
    );
    assert_eq!(
        b.extend_duration(&call_at(7), alice(), u64::MAX).unwrap_err(),
        coded(ContractError::Overflow)
    );
}

#[test]
fn book_withdrawal_after_the_lockup() {
    let mut b = book();
    b.create_bond(&call_at(5), alice(), 100, 10, false, 0).unwrap();
    assert_eq!(
        b.withdraw(&call_at(14), alice(), 1).unwrap_err(),
        coded(ContractError::LockupNotExpired)
    );
    b.slash(&call_at(6), admin(), alice(), 30).unwrap();
    assert_eq!(
        b.withdraw(&call_at(15), alice(), 71).unwrap_err(),
        coded(ContractError::InsufficientBalance)
    );
    let done = b.withdraw(&call_at(15), alice(), 70).unwrap();
    assert_eq!(
        done.effects,
        vec![
            Effect::TransferOut { to: alice(), amount: 70 },
            Effect::Publish(Event::Withdrawal {
                identity: alice(),
                amount: 70,
                remaining: 30,
                timestamp: 15,
            }),
        ]
    );
    assert!(!b.locked);
    assert_eq!(
        b.withdraw(&call_at(15), alice(), i128::MIN).unwrap_err(),
        coded(ContractError::Underflow)
    );
    assert_eq!(
        b.withdraw(&call_at(15), bob(), 1).unwrap_err(),
        coded(ContractError::BondNotFound)
    );
}

#[test]
fn book_withdrawal_after_notice() {
    let mut b = book();
    b.create_bond(&call_at(5), alice(), 100, 10, true, 4).unwrap();
    let refused = b.withdraw(&call_at(100), alice(), 1).unwrap_err();
    assert_eq!(refused, Revert::NoticeNotStarted);
    assert_eq!(refused.message(), Some("notice not started"));
    b.request_withdrawal(&call_at(6), alice()).unwrap();
    assert_eq!(
        b.request_withdrawal(&call_at(7), alice()).unwrap_err(),
        coded(ContractError::WithdrawalAlreadyRequested)
    );
    assert_eq!(
        b.withdraw(&call_at(9), alice(), 1).unwrap_err(),
        Revert::NoticePeriodNotElapsed
    );
    b.withdraw_begin(&call_at(10), alice(), 40).unwrap();
    assert!(b.locked);
    assert_eq!(
        b.withdraw(&call_at(10), alice(), 1).unwrap_err(),
        coded(ContractError::ReentrancyDetected)
    );
    b.locked = false;
    b.withdraw(&call_at(10), alice(), 60).unwrap();
    assert_eq!(b.get_bond(&alice()).unwrap().bond.amount, 0);
}

#[test]
fn book_request_needs_a_rolling_bond() {
    let mut b = book();
    b.create_bond(&call_at(5), alice(), 100, 10, false, 4).unwrap();
    assert_eq!(
        b.request_withdrawal(&call_at(7), alice()).unwrap_err(),
        coded(ContractError::NotRollingBond)
    );
}

#[test]
fn book_slash_stops_at_the_bonded_amount() {
    let mut b = book();
    b.create_bond(&call_at(5), alice(), 100, 10, false, 0).unwrap();
    b.create_bond(&call_at(5), bob(), 100, 10, false, 0).unwrap();
    b.slash(&call_at(6), admin(), alice(), 60).unwrap();
    let done = b.slash(&call_at(6), admin(), alice(), 60).unwrap();
    assert_eq!(
        done.effects,
        vec![Effect::Publish(Event::BondSlashed {
            identity: alice(),
            amount: 60,
            total: 100,
            timestamp: 6,
        })]
    );
    assert_eq!(b.get_bond(&alice()).unwrap().slashed_amount, 100);
    assert_eq!(b.get_bond(&bob()).unwrap().slashed_amount, 0);
    assert_eq!(
        b.slash(&call_at(6), alice(), bob(), 1).unwrap_err(),
        coded(ContractError::NotAdmin)
    );
    assert_eq!(
        b.slash(&call_at(6), admin(), alice(), i128::MAX).unwrap_err(),
        coded(ContractError::Overflow)
    );
    assert_eq!(
        b.slash(&call_at(6), admin(), account(9), 1).unwrap_err(),
        coded(ContractError::BondNotFound)
    );
}

#[test]
fn book_terms_may_not_overflow() {
    let mut b = book();
    b.create_bond(&call_at(5), alice(), 100, 10, false, 0).unwrap();
    b.extend_duration(&call_at(5), alice(), u64::MAX - 10).unwrap();
    assert_eq!(
        b.withdraw(&call_at(u64::MAX), alice(), 1).unwrap_err(),
        Revert::ArithmeticOverflow
    );
}
