//! What each call on slashing and liquidation does, told of what it is handed and what it gives.
use crate::address::Address;
use crate::call::Call;
use crate::effect::{Effect, Event, Hook, LiquidationReason, Outcome};
use crate::error::{ContractError, Revert, Verdict};
use crate::laws::{
    by_admin, coded, comes_to, is_amount, keep_alive, not_by_admin, self_check, signed,
};
use crate::state::{CredenceBond, State};
use crate::types::{IdempotencyModel, IdentityBond, Operation};
use vstd::prelude::*;

verus! {

/// Whether a submission under a salt is a repeat of one that went through.
pub open spec fn repeats(s: State, actor: Address, operation: Operation, salt: Seq<u8>) -> bool {
    salt.len() > 0 && s.idempotency_keys.contains_key(IdempotencyModel { actor, operation, salt })
}

/// The submissions on record with one more, where it carries a salt.
pub open spec fn with_submission(
    s: State,
    actor: Address,
    operation: Operation,
    salt: Seq<u8>,
) -> Map<IdempotencyModel, bool> {
    if salt.len() > 0 {
        s.idempotency_keys.insert(IdempotencyModel { actor, operation, salt }, true)
    } else {
        s.idempotency_keys
    }
}

/// What a guarded slash comes to: the cumulative slash of the active bond grows by the amount,
/// up to what is bonded, and nothing else of it changes; the submission is noted.
pub open spec fn slashes(
    s: State,
    t: State,
    r: Result<Outcome<i128>, Revert>,
    call: Call,
    admin: Address,
    amount: i128,
    salt: Seq<u8>,
    locked: bool,
) -> bool {
    let b = s.bond->0;
    let sum = b.slashed_amount + amount;
    if !s.paused && signed(call, admin) && !repeats(s, admin, Operation::SlashBond, salt)
        && !s.locked && s.admin == Some(admin) && s.bond is Some && b.active && is_amount(sum) && sum
        <= b.bonded_amount {
        &&& r is Ok
        &&& r->Ok_0.value == sum
        &&& t == (State {
            bond: Some(IdentityBond { slashed_amount: r->Ok_0.value, ..b }),
            idempotency_keys: with_submission(s, admin, Operation::SlashBond, salt),
            locked,
            ..s
        })
        &&& r->Ok_0.effects@ =~= seq![self_check()] + (if s.callback is Some {
            seq![Effect::Callback { target: s.callback->0, hook: Hook::OnSlash, amount }]
        } else {
            seq![]
        })
    } else {
        &&& r is Err
        &&& t == s
        &&& r->Err_0 == (if s.paused {
            Revert::Paused
        } else if !signed(call, admin) {
            Revert::Unauthorized
        } else if repeats(s, admin, Operation::SlashBond, salt) {
            coded(ContractError::DuplicateIdempotencyKey)
        } else if s.locked {
            coded(ContractError::ReentrancyDetected)
        } else if s.admin is None {
            coded(ContractError::NotInitialized)
        } else if s.admin != Some(admin) {
            coded(ContractError::NotAdmin)
        } else if s.bond is None {
            coded(ContractError::BondNotFound)
        } else if !b.active {
            coded(ContractError::BondNotActive)
        } else if !is_amount(sum) {
            Revert::ArithmeticOverflow
        } else {
            coded(ContractError::SlashExceedsBond)
        })
    }
}

/// A guarded slash adds its amount to what was slashed, and tells the sum; the lock is held while
/// the callback runs, and free after it.
pub proof fn law_guarded_slash_adds_its_amount(
    c: &mut CredenceBond,
    d: &mut CredenceBond,
    call: Call,
    admin: Address,
    amount: i128,
    salt: Vec<u8>,
    begun: Result<Outcome<i128>, Revert>,
    done: Result<Outcome<i128>, Revert>,
)
    requires
        call_ensures(CredenceBond::slash_bond_begin, (c, &call, admin, amount, &salt), begun),
        call_ensures(CredenceBond::slash_bond, (d, &call, admin, amount, &salt), done),
    ensures
        slashes(old(c)@, final(c)@, begun, call, admin, amount, salt@, true),
        slashes(old(d)@, final(d)@, done, call, admin, amount, salt@, false),
{
}

/// A slash to the treasury adds its amount to what was slashed, stopping at what is bonded, and
/// pays the treasury what it added.
pub proof fn law_slash_pays_the_treasury_what_it_takes(
    c: &mut CredenceBond,
    call: Call,
    admin: Address,
    amount: i128,
    admitted: Verdict,
    r: Result<Outcome<IdentityBond>, Revert>,
)
    requires
        call_ensures(CredenceBond::slash, (c, &call, admin, amount, admitted), r),
    ensures
        ({
            let s = old(c)@;
            let b = s.bond->0;
            let sum = b.slashed_amount + amount;
            if by_admin(s, call, admin) && s.bond is Some && s.slash_treasury is Some && admitted
                is Ok && amount <= b.bonded_amount && is_amount(sum) {
                let after = r->Ok_0.value;
                let taken = after.slashed_amount - b.slashed_amount;
                &&& r is Ok
                &&& after == (IdentityBond { slashed_amount: after.slashed_amount, ..b })
                &&& sum <= b.bonded_amount ==> after.slashed_amount == sum
                &&& sum > b.bonded_amount ==> after.slashed_amount == b.bonded_amount
                &&& final(c)@ == (State { bond: Some(after), ..s })
                &&& taken <= 0 ==> r->Ok_0.effects@ =~= seq![]
                &&& taken > 0 ==> r->Ok_0.effects@.len() == 1
                &&& taken > 0 && taken <= i128::MAX ==> r->Ok_0.effects@[0]
                    == (Effect::TransferOut { to: s.slash_treasury->0, amount: taken as i128 })
                &&& taken > i128::MAX ==> r->Ok_0.effects@[0] == (Effect::TransferOut {
                    to: s.slash_treasury->0,
                    amount: i128::MAX,
                })
            } else {
                &&& r is Err
                &&& final(c)@ == s
                &&& r->Err_0 == (if !by_admin(s, call, admin) {
                    not_by_admin(s, call, admin)
                } else if s.bond is None {
                    coded(ContractError::BondNotFound)
                } else if s.slash_treasury is None {
                    coded(ContractError::TreasuryNotConfigured)
                } else if admitted is Err {
                    admitted->Err_0
                } else if amount > b.bonded_amount {
                    coded(ContractError::SlashExceedsBond)
                } else {
                    coded(ContractError::Overflow)
                })
            }
        }),
{
}

/// The administrator sets the two treasuries, each its own, and they are read as they are held,
/// as are the marks of liquidation.
pub proof fn law_treasuries_are_set_and_read(
    c: &mut CredenceBond,
    d: &mut CredenceBond,
    seen: CredenceBond,
    call: Call,
    admin: Address,
    treasury: Address,
    identity: Address,
    r: Result<Outcome<()>, Revert>,
    q: Result<Outcome<()>, Revert>,
    liquidation: Option<Address>,
    slash: Option<Address>,
    mark: bool,
)
    requires
        call_ensures(CredenceBond::set_liquidation_treasury, (c, &call, admin, treasury), r),
        call_ensures(CredenceBond::set_slash_treasury, (d, &call, admin, treasury), q),
        call_ensures(CredenceBond::get_liquidation_treasury, (&seen,), liquidation),
        call_ensures(CredenceBond::get_slash_treasury, (&seen,), slash),
        call_ensures(CredenceBond::is_liquidated, (&seen, &identity), mark),
    ensures
        comes_to(
            old(c)@,
            final(c)@,
            r,
            by_admin(old(c)@, call, admin),
            not_by_admin(old(c)@, call, admin),
            State { liquidation_treasury: Some(treasury), ..old(c)@ },
            (),
            seq![keep_alive(), Effect::Publish(Event::LiquidationTreasurySet { treasury })],
        ),
        comes_to(
            old(d)@,
            final(d)@,
            q,
            by_admin(old(d)@, call, admin),
            not_by_admin(old(d)@, call, admin),
            State { slash_treasury: Some(treasury), ..old(d)@ },
            (),
            seq![keep_alive(), Effect::Publish(Event::SlashTreasurySet { treasury })],
        ),
        liquidation == seen.liquidation_treasury,
        slash == seen.slash_treasury,
        mark <==> seen.liquidated@.contains_key(identity) && seen.liquidated@[identity],
{
}

/// What a liquidation comes to: an active bond of which nothing is left, or that does not roll
/// and is past its end, becomes inactive, and nothing else of it changes; its identity is marked;
/// what is left is swept to the treasury, where there is one and a token; and the event tells the
/// reason, nothing being left before anything else.
pub open spec fn liquidates(
    s: State,
    t: State,
    r: Result<Outcome<IdentityBond>, Revert>,
    call: Call,
    admin: Address,
    locked: bool,
) -> bool {
    let b = s.bond->0;
    let left = b.bonded_amount - b.slashed_amount;
    let residual: i128 = if left > i128::MAX {
        i128::MAX
    } else if left < i128::MIN {
        i128::MIN
    } else {
        left as i128
    };
    let ended = call.now >= b.bond_start + b.bond_duration || call.now == u64::MAX;
    if !s.paused && signed(call, admin) && !s.locked && s.bond is Some && s.admin == Some(admin)
        && b.active && (left <= 0 || (!b.is_rolling && ended)) {
        &&& r is Ok
        &&& r->Ok_0.value == (IdentityBond { active: false, ..b })
        &&& t == (State {
            bond: Some(IdentityBond { active: false, ..b }),
            liquidated: s.liquidated.insert(b.identity, true),
            locked,
            ..s
        })
        &&& r->Ok_0.effects@ =~= seq![keep_alive(), keep_alive(), self_check()] + (if left > 0
            && s.liquidation_treasury is Some && s.token is Some {
            seq![Effect::Sweep { to: s.liquidation_treasury->0, amount: residual }]
        } else {
            seq![]
        }) + seq![
            Effect::Publish(
                Event::BondLiquidated {
                    identity: b.identity,
                    residual,
                    reason: if left <= 0 {
                        LiquidationReason::FullySlashed
                    } else {
                        LiquidationReason::ExpiredUnrenewed
                    },
                    timestamp: call.now,
                    admin,
                },
            ),
        ]
    } else {
        &&& r is Err
        &&& t == s
        &&& r->Err_0 == (if s.paused {
            Revert::Paused
        } else if !signed(call, admin) {
            Revert::Unauthorized
        } else if s.locked {
            coded(ContractError::ReentrancyDetected)
        } else if s.bond is None {
            coded(ContractError::BondNotFound)
        } else if s.admin is None {
            coded(ContractError::NotInitialized)
        } else if s.admin != Some(admin) {
            coded(ContractError::NotAdmin)
        } else if !b.active {
            coded(ContractError::BondNotActive)
        } else {
            Revert::NotEligibleForLiquidation
        })
    }
}

/// The signing administrator liquidates an active bond of which nothing is left, whether or not
/// it rolls, or that does not roll and is past its end, while the contract is neither paused nor
/// locked; and no other bond.
pub proof fn law_spent_and_expired_bonds_are_liquidated(
    c: &mut CredenceBond,
    d: &mut CredenceBond,
    call: Call,
    admin: Address,
    begun: Result<Outcome<IdentityBond>, Revert>,
    done: Result<Outcome<IdentityBond>, Revert>,
)
    requires
        call_ensures(CredenceBond::liquidate_begin, (c, &call, admin), begun),
        call_ensures(CredenceBond::liquidate, (d, &call, admin), done),
    ensures
        liquidates(old(c)@, final(c)@, begun, call, admin, true),
        liquidates(old(d)@, final(d)@, done, call, admin, false),
{
}

} // verus!
