//! The life of the bond: creation, growth, extension, renewal and withdrawal.
use crate::address::Address;
use crate::amount::{clamp_amount, fits_amount, saturating_difference};
use crate::call::Call;
use crate::effect::{
    answers, bump_instance_ttl, check_bond, first_of, push_if, refuse_if, verdict_refusal, Effect,
    Event, Hook, Outcome,
};
use crate::error::{ContractError, Revert, Verdict};
use crate::state::{
    bond_refusal, gate_refusal, lock_refusal, transacts, CredenceBond, State,
};
use crate::tier::{emit_tier_change_if_needed, tier_of, with_tier_change};
use crate::types::{BondStateView, BondTier, IdentityBond};
use vstd::prelude::*;

verus! {

/// What is left of a bond after slashing.
pub open spec fn available(b: IdentityBond) -> int {
    b.bonded_amount - b.slashed_amount
}

/// The end of a bond's lock-up.
pub open spec fn lockup_end(b: IdentityBond) -> int {
    b.bond_start + b.bond_duration
}

/// The end of a bond's lock-up, held at the end of time.
pub open spec fn saturated_end(b: IdentityBond) -> u64 {
    if lockup_end(b) > u64::MAX {
        u64::MAX
    } else {
        lockup_end(b) as u64
    }
}

/// The state with its bond replaced.
pub open spec fn with_bond(s: State, b: IdentityBond) -> State {
    State { bond: Some(b), ..s }
}

/// Why nothing may be withdrawn from a bond on the ground of its notice period.
pub open spec fn notice_refusal(b: IdentityBond, now: u64) -> Option<Revert> {
    if !b.is_rolling {
        None
    } else {
        first_of(
            refuse_if(b.withdrawal_requested_at == 0, Revert::WithdrawalNotRequested),
            first_of(
                refuse_if(
                    b.withdrawal_requested_at + b.notice_period_duration > u64::MAX,
                    Revert::NoticePeriodOverflow,
                ),
                refuse_if(
                    now < b.withdrawal_requested_at + b.notice_period_duration,
                    Revert::NoticePeriodNotElapsed,
                ),
            ),
        )
    }
}

/// Why `amount` may not be taken out of a bond on the ground of its balance.
pub open spec fn balance_refusal(b: IdentityBond, amount: i128) -> Option<Revert> {
    first_of(
        refuse_if(
            !fits_amount(available(b)),
            Revert::Contract(ContractError::SlashExceedsBond),
        ),
        refuse_if(
            amount > available(b),
            Revert::Contract(ContractError::InsufficientBalance),
        ),
    )
}

// ---- creation ----

/// Why a new bond is refused before its tokens are pulled in.
pub open spec fn create_begin_refusal(s: State, call: Call, identity: Address) -> Option<Revert> {
    first_of(gate_refusal(s, call, identity), refuse_if(s.borrow_frozen, Revert::BorrowFrozen))
}

/// The effects before a new bond is stored.
pub open spec fn transfer_in(s: State, from: Address, amount: i128) -> Seq<Effect> {
    push_if(seq![], s.token is Some, Effect::TransferIn { from, amount })
}

/// Why a new bond is refused once its tokens are in.
pub open spec fn create_finish_refusal(call: Call, duration: u64, check: Verdict) -> Option<
    Revert,
> {
    first_of(
        refuse_if(call.now + duration > u64::MAX, Revert::BondEndWouldOverflow),
        verdict_refusal(check),
    )
}

/// A new bond.
pub open spec fn new_bond(
    call: Call,
    identity: Address,
    amount: i128,
    duration: u64,
    is_rolling: bool,
    notice_period_duration: u64,
) -> IdentityBond {
    IdentityBond {
        identity,
        bonded_amount: amount,
        bond_start: call.now,
        bond_duration: duration,
        slashed_amount: 0,
        active: true,
        is_rolling,
        withdrawal_requested_at: 0,
        notice_period_duration,
    }
}

/// The effects of storing a new bond, after `first`.
pub open spec fn create_effects(
    s: State,
    first: Seq<Effect>,
    identity: Address,
    amount: i128,
) -> Seq<Effect> {
    with_tier_change(
        first.push(bump_instance_ttl()),
        identity,
        BondTier::Bronze,
        tier_of(s.tier_thresholds, amount as int),
    ).push(check_bond())
}

// ---- growth ----

/// Why a top-up is refused before its tokens are pulled in.
pub open spec fn top_up_begin_refusal(s: State, call: Call, identity: Address) -> Option<Revert> {
    first_of(
        create_begin_refusal(s, call, identity),
        first_of(bond_refusal(s), lock_refusal(s)),
    )
}

/// Why a top-up of a bond is refused once its tokens are in.
pub open spec fn top_up_finish_refusal(
    b: IdentityBond,
    amount: i128,
    check: Verdict,
) -> Option<Revert> {
    first_of(
        refuse_if(
            !fits_amount(b.bonded_amount + amount),
            Revert::Contract(ContractError::Overflow),
        ),
        verdict_refusal(check),
    )
}

/// A bond with `amount` added.
pub open spec fn topped_up(b: IdentityBond, amount: i128) -> IdentityBond {
    IdentityBond { bonded_amount: (b.bonded_amount + amount) as i128, ..b }
}

/// The effects of storing a topped-up bond, after `first`.
pub open spec fn top_up_effects(
    s: State,
    first: Seq<Effect>,
    b: IdentityBond,
    amount: i128,
) -> Seq<Effect> {
    with_tier_change(
        first,
        b.identity,
        tier_of(s.tier_thresholds, clamp_amount(available(b)) as int),
        tier_of(s.tier_thresholds, clamp_amount(available(topped_up(b, amount))) as int),
    ).push(bump_instance_ttl()).push(check_bond())
}

// ---- extension, request, renewal ----

/// Why an extension is refused.
pub open spec fn extend_refusal(
    s: State,
    call: Call,
    identity: Address,
    additional_duration: u64,
) -> Option<Revert> {
    first_of(
        gate_refusal(s, call, identity),
        first_of(
            bond_refusal(s),
            refuse_if(
                lockup_end(s.bond->0) + additional_duration > u64::MAX,
                Revert::Contract(ContractError::Overflow),
            ),
        ),
    )
}

/// A bond with a longer lock-up.
pub open spec fn extended(b: IdentityBond, additional_duration: u64) -> IdentityBond {
    IdentityBond { bond_duration: (b.bond_duration + additional_duration) as u64, ..b }
}

/// Why a request for withdrawal is refused.
pub open spec fn request_refusal(s: State, call: Call, identity: Address) -> Option<Revert> {
    first_of(
        gate_refusal(s, call, identity),
        first_of(
            bond_refusal(s),
            first_of(
                refuse_if(
                    !s.bond->0.is_rolling,
                    Revert::Contract(ContractError::NotRollingBond),
                ),
                refuse_if(
                    s.bond->0.withdrawal_requested_at != 0,
                    Revert::Contract(ContractError::WithdrawalAlreadyRequested),
                ),
            ),
        ),
    )
}

/// A bond whose notice period started at `now`.
pub open spec fn requested(b: IdentityBond, now: u64) -> IdentityBond {
    IdentityBond { withdrawal_requested_at: now, ..b }
}

/// Whether a bond is due for renewal: it rolls, its period has ended, and no withdrawal was
/// requested.
pub open spec fn due_for_renewal(b: IdentityBond, now: u64) -> bool {
    &&& b.is_rolling
    &&& b.withdrawal_requested_at == 0
    &&& now >= saturated_end(b)
}

/// A bond whose next period starts at `now`.
pub open spec fn renewed(b: IdentityBond, now: u64) -> IdentityBond {
    IdentityBond { bond_start: now, ..b }
}

// ---- withdrawal ----

/// Why a withdrawal after the lock-up is refused.
pub open spec fn withdraw_refusal(
    s: State,
    call: Call,
    identity: Address,
    amount: i128,
) -> Option<Revert> {
    let b = s.bond->0;
    first_of(
        gate_refusal(s, call, identity),
        first_of(
            refuse_if(amount <= 0, Revert::AmountNotPositive),
            first_of(
                bond_refusal(s),
                first_of(
                    refuse_if(lockup_end(b) > u64::MAX, Revert::BondEndOverflow),
                    first_of(
                        refuse_if(call.now < lockup_end(b), Revert::LockupRunning),
                        first_of(notice_refusal(b, call.now), balance_refusal(b, amount)),
                    ),
                ),
            ),
        ),
    )
}

/// A bond with `amount` taken out.
pub open spec fn reduced(b: IdentityBond, amount: i128) -> IdentityBond {
    IdentityBond { bonded_amount: (b.bonded_amount - amount) as i128, ..b }
}

/// The effects of a withdrawal after the lock-up. The tier before it is that of the bonded
/// amount, and the tier after it that of the available one.
pub open spec fn withdraw_effects(s: State, amount: i128) -> Seq<Effect> {
    let b = s.bond->0;
    with_tier_change(
        seq![],
        b.identity,
        tier_of(s.tier_thresholds, b.bonded_amount as int),
        tier_of(s.tier_thresholds, available(b) - amount),
    ).push(bump_instance_ttl()).push(check_bond())
}

/// Why no penalty is due, or none can be told, on an early withdrawal.
pub open spec fn early_query_refusal(
    s: State,
    call: Call,
    identity: Address,
    amount: i128,
) -> Option<Revert> {
    let b = s.bond->0;
    first_of(
        gate_refusal(s, call, identity),
        first_of(
            bond_refusal(s),
            first_of(
                balance_refusal(b, amount),
                first_of(
                    refuse_if(
                        call.now >= saturated_end(b),
                        Revert::Contract(ContractError::LockupNotExpired),
                    ),
                    refuse_if(
                        s.early_exit is None,
                        Revert::Contract(ContractError::EarlyExitConfigNotSet),
                    ),
                ),
            ),
        ),
    )
}

/// Why an early withdrawal at a given penalty is refused.
pub open spec fn early_refusal(
    s: State,
    call: Call,
    identity: Address,
    amount: i128,
    penalty: i128,
) -> Option<Revert> {
    first_of(
        early_query_refusal(s, call, identity, amount),
        first_of(
            refuse_if(
                !fits_amount(amount - penalty),
                Revert::Contract(ContractError::Underflow),
            ),
            first_of(
                refuse_if(
                    !(0 <= penalty <= amount),
                    Revert::Contract(ContractError::InvariantViolation),
                ),
                lock_refusal(s),
            ),
        ),
    )
}

/// The effects of an early withdrawal up to the release of the lock: the event of the penalty,
/// the event of a change of tier, the penalty to the treasury, and the rest to the bond's owner.
pub open spec fn early_effects(s: State, amount: i128, penalty: i128) -> Seq<Effect> {
    let b = s.bond->0;
    let treasury = s.early_exit->0.treasury;
    push_if(
        push_if(
            with_tier_change(
                seq![
                    Effect::Publish(
                        Event::EarlyExitPenalty { identity: b.identity, amount, penalty, treasury },
                    ),
                ],
                b.identity,
                tier_of(s.tier_thresholds, b.bonded_amount as int),
                tier_of(s.tier_thresholds, b.bonded_amount - amount),
            ),
            penalty > 0,
            Effect::FeeTransferOut { to: treasury, amount: penalty },
        ),
        amount - penalty > 0,
        Effect::TransferOut { to: b.identity, amount: (amount - penalty) as i128 },
    )
}

/// Why the withdrawal of the whole bond is refused.
pub open spec fn close_refusal(s: State, call: Call, identity: Address) -> Option<Revert> {
    let b = s.bond->0;
    first_of(
        gate_refusal(s, call, identity),
        first_of(
            lock_refusal(s),
            first_of(
                bond_refusal(s),
                first_of(
                    refuse_if(
                        b.identity != identity,
                        Revert::Contract(ContractError::NotBondOwner),
                    ),
                    first_of(
                        refuse_if(!b.active, Revert::Contract(ContractError::BondNotActive)),
                        first_of(
                            notice_refusal(b, call.now),
                            refuse_if(!fits_amount(available(b)), Revert::ArithmeticOverflow),
                        ),
                    ),
                ),
            ),
        ),
    )
}

/// A bond that was withdrawn as a whole.
pub open spec fn emptied(b: IdentityBond) -> IdentityBond {
    IdentityBond { bonded_amount: 0, active: false, ..b }
}

/// A list of effects with a call of the callback contract, where one is registered.
pub open spec fn with_callback(
    s: State,
    effects: Seq<Effect>,
    hook: Hook,
    amount: i128,
) -> Seq<Effect> {
    push_if(
        effects,
        s.callback is Some,
        Effect::Callback { target: s.callback->0, hook, amount },
    )
}

/// What the penalty on an early withdrawal is computed from.
#[derive(Clone, Copy, Debug, PartialEq, Eq, Structural)]
pub struct PenaltyQuery {
    /// Amount to withdraw.
    pub amount: i128,
    /// Time left of the lock-up.
    pub remaining: u64,
    /// Length of the lock-up.
    pub bond_duration: u64,
    /// Penalty rate in basis points.
    pub penalty_bps: u32,
}

/// What the penalty on an early withdrawal of `amount` is computed from.
pub open spec fn penalty_query(s: State, call: Call, amount: i128) -> PenaltyQuery {
    PenaltyQuery {
        amount,
        remaining: (saturated_end(s.bond->0) - call.now) as u64,
        bond_duration: s.bond->0.bond_duration,
        penalty_bps: s.early_exit->0.penalty_bps,
    }
}

/// Adds a call of the callback contract to a list of effects, where one is registered.
pub(crate) fn push_callback(
    effects: &mut Vec<Effect>,
    callback: Option<Address>,
    hook: Hook,
    amount: i128,
)
    ensures
        final(effects)@ == push_if(
            old(effects)@,
            callback is Some,
            Effect::Callback { target: callback->0, hook, amount },
        ),
{
    match callback {
        Some(target) => effects.push(Effect::Callback { target, hook, amount }),
        None => {},
    }
}

/// Refuses a withdrawal from a rolling bond whose notice period has not run out.
fn require_notice(b: &IdentityBond, now: u64) -> (r: Result<(), Revert>)
    ensures
        answers(r, notice_refusal(*b, now)),
{
    if b.is_rolling {
        if b.withdrawal_requested_at == 0 {
            return Err(Revert::WithdrawalNotRequested);
        }
        match b.withdrawal_requested_at.checked_add(b.notice_period_duration) {
            None => return Err(Revert::NoticePeriodOverflow),
            Some(earliest) => {
                if now < earliest {
                    return Err(Revert::NoticePeriodNotElapsed);
                }
            },
        }
    }
    Ok(())
}

/// What is left of a bond after slashing, where `amount` may be taken out of it.
fn require_balance(b: &IdentityBond, amount: i128) -> (r: Result<i128, Revert>)
    ensures
        answers(r, balance_refusal(*b, amount)),
        r matches Ok(left) ==> left == available(*b),
{
    match b.bonded_amount.checked_sub(b.slashed_amount) {
        None => Err(Revert::Contract(ContractError::SlashExceedsBond)),
        Some(left) => if amount > left {
            Err(Revert::Contract(ContractError::InsufficientBalance))
        } else {
            Ok(left)
        },
    }
}

/// Adds two lists of effects.
fn join_effects(first: Vec<Effect>, second: Vec<Effect>) -> (r: Vec<Effect>)
    ensures
        r@ == first@ + second@,
{
    let mut all = first;
    let mut rest = second;
    all.append(&mut rest);
    all
}

impl CredenceBond {
    /// Takes the lock that guards operations with outside calls.
    pub fn acquire_lock(&mut self) -> (r: Result<(), Revert>)
        ensures
            answers(r, lock_refusal(old(self)@)),
            r is Ok ==> final(self)@ == (State { locked: true, ..old(self)@ }),
            r is Err ==> final(self)@ == old(self)@,
    {
        if self.locked {
            return Err(Revert::Contract(ContractError::ReentrancyDetected));
        }
        self.locked = true;
        Ok(())
    }

    /// Releases the lock.
    pub fn release_lock(&mut self)
        ensures
            final(self)@ == (State { locked: false, ..old(self)@ }),
    {
        self.locked = false;
    }

    /// Check if the reentrancy lock is held.
    pub fn is_locked(&self) -> (r: bool)
        ensures
            r == self@.locked,
    {
        self.locked
    }

    /// The first half of [`CredenceBond::create_bond`], up to the pull of the tokens.
    pub fn create_bond_begin(&self, call: &Call, identity: Address, amount: i128) -> (r: Result<
        Outcome<()>,
        Revert,
    >)
        ensures
            answers(r, create_begin_refusal(self@, *call, identity)),
            r matches Ok(o) ==> o.effects@ == transfer_in(self@, identity, amount),
    {
        self.require_gate(call, &identity)?;
        if self.borrow_frozen {
            return Err(Revert::BorrowFrozen);
        }
        let mut effects: Vec<Effect> = Vec::new();
        if self.token.is_some() {
            effects.push(Effect::TransferIn { from: identity, amount });
        }
        Ok(Outcome { value: (), effects })
    }

    /// The second half of [`CredenceBond::create_bond`], once the tokens are in.
    ///
    /// `check` is the answer of the amount and leverage rules on `amount`.
    pub fn create_bond_finish(
        &mut self,
        call: &Call,
        identity: Address,
        amount: i128,
        duration: u64,
        is_rolling: bool,
        notice_period_duration: u64,
        check: Verdict,
    ) -> (r: Result<Outcome<IdentityBond>, Revert>)
        ensures
            transacts(
                old(self)@,
                final(self)@,
                r,
                create_finish_refusal(*call, duration, check),
                with_bond(
                    old(self)@,
                    new_bond(*call, identity, amount, duration, is_rolling, notice_period_duration),
                ),
                new_bond(*call, identity, amount, duration, is_rolling, notice_period_duration),
                create_effects(old(self)@, seq![], identity, amount),
            ),
    {
        if call.now.checked_add(duration).is_none() {
            return Err(Revert::BondEndWouldOverflow);
        }
        check?;
        let bond = IdentityBond {
            identity,
            bonded_amount: amount,
            bond_start: call.now,
            bond_duration: duration,
            slashed_amount: 0,
            active: true,
            is_rolling,
            withdrawal_requested_at: 0,
            notice_period_duration,
        };
        self.bond = Some(bond);
        let mut effects: Vec<Effect> = vec![bump_instance_ttl()];
        assert(effects@ =~= Seq::<Effect>::empty().push(bump_instance_ttl()));
        let tier = self.get_tier_for_amount(amount);
        emit_tier_change_if_needed(&mut effects, identity, BondTier::Bronze, tier);
        effects.push(Effect::CheckConsistency { subject: None });
        Ok(Outcome { value: bond, effects })
    }

    /// Create a new bond for an identity.
    ///
    /// Authority: `identity` must authorize the call. `check` is the answer of the amount and
    /// leverage rules on `amount`.
    pub fn create_bond(
        &mut self,
        call: &Call,
        identity: Address,
        amount: i128,
        duration: u64,
        is_rolling: bool,
        notice_period_duration: u64,
        check: Verdict,
    ) -> (r: Result<Outcome<IdentityBond>, Revert>)
        ensures
            transacts(
                old(self)@,
                final(self)@,
                r,
                first_of(
                    create_begin_refusal(old(self)@, *call, identity),
                    create_finish_refusal(*call, duration, check),
                ),
                with_bond(
                    old(self)@,
                    new_bond(*call, identity, amount, duration, is_rolling, notice_period_duration),
                ),
                new_bond(*call, identity, amount, duration, is_rolling, notice_period_duration),
                create_effects(
                    old(self)@,
                    transfer_in(old(self)@, identity, amount),
                    identity,
                    amount,
                ),
            ),
    {
        let begun = self.create_bond_begin(call, identity, amount)?;
        let done = self.create_bond_finish(
            call,
            identity,
            amount,
            duration,
            is_rolling,
            notice_period_duration,
            check,
        )?;
        Ok(Outcome { value: done.value, effects: join_effects(begun.effects, done.effects) })
    }

    /// Retrieve the current bond state.
    pub fn get_identity_state(&self) -> (r: Result<IdentityBond, Revert>)
        ensures
            answers(r, bond_refusal(self@)),
            r matches Ok(b) ==> self@.bond == Some(b),
    {
        self.load_bond()
    }

    /// Return a snapshot of the bond state for `identity`, or `None` if no bond exists.
    pub fn describe_bond(&self, identity: &Address) -> (r: Option<BondStateView>)
        ensures
            r is Some <==> self@.bond is Some && self@.bond->0.identity == *identity,
            r matches Some(v) ==> {
                let b = self@.bond->0;
                v == (BondStateView {
                    identity: b.identity,
                    bonded_amount: b.bonded_amount,
                    slashed_amount: b.slashed_amount,
                    available_amount: clamp_amount(available(b)),
                    bond_start: b.bond_start,
                    bond_duration: b.bond_duration,
                    active: b.active,
                    is_rolling: b.is_rolling,
                    withdrawal_requested_at: b.withdrawal_requested_at,
                    notice_period_duration: b.notice_period_duration,
                    tier: tier_of(self@.tier_thresholds, b.bonded_amount as int),
                })
            },
    {
        match self.bond {
            None => None,
            Some(b) => {
                if b.identity != *identity {
                    return None;
                }
                Some(
                    BondStateView {
                        identity: b.identity,
                        bonded_amount: b.bonded_amount,
                        slashed_amount: b.slashed_amount,
                        available_amount: saturating_difference(b.bonded_amount, b.slashed_amount),
                        bond_start: b.bond_start,
                        bond_duration: b.bond_duration,
                        active: b.active,
                        is_rolling: b.is_rolling,
                        withdrawal_requested_at: b.withdrawal_requested_at,
                        notice_period_duration: b.notice_period_duration,
                        tier: self.get_tier_for_amount(b.bonded_amount),
                    },
                )
            },
        }
    }

    /// Get current tier for the bond's available (net) amount.
    pub fn get_tier(&self) -> (r: Result<BondTier, Revert>)
        ensures
            answers(r, bond_refusal(self@)),
            r matches Ok(t) ==> t == tier_of(
                self@.tier_thresholds,
                clamp_amount(available(self@.bond->0)) as int,
            ),
    {
        let b = self.load_bond()?;
        Ok(self.get_tier_for_amount(saturating_difference(b.bonded_amount, b.slashed_amount)))
    }

    /// Withdraw from bond after lock-up period has ended.
    pub fn withdraw(&mut self, call: &Call, identity: Address, amount: i128) -> (r: Result<
        Outcome<IdentityBond>,
        Revert,
    >)
        ensures
            transacts(
                old(self)@,
                final(self)@,
                r,
                withdraw_refusal(old(self)@, *call, identity, amount),
                with_bond(old(self)@, reduced(old(self)@.bond->0, amount)),
                reduced(old(self)@.bond->0, amount),
                withdraw_effects(old(self)@, amount),
            ),
    {
        self.require_gate(call, &identity)?;
        if amount <= 0 {
            return Err(Revert::AmountNotPositive);
        }
        let mut bond = self.load_bond()?;
        match bond.bond_start.checked_add(bond.bond_duration) {
            None => return Err(Revert::BondEndOverflow),
            Some(end) => {
                if call.now < end {
                    return Err(Revert::LockupRunning);
                }
            },
        }
        require_notice(&bond, call.now)?;
        let left: i128 = require_balance(&bond, amount)?;
        let old_tier = self.get_tier_for_amount(bond.bonded_amount);
        bond.bonded_amount = bond.bonded_amount - amount;
        let new_tier = self.get_tier_for_amount(left - amount);
        let mut effects: Vec<Effect> = Vec::new();
        emit_tier_change_if_needed(&mut effects, bond.identity, old_tier, new_tier);
        self.bond = Some(bond);
        effects.push(bump_instance_ttl());
        effects.push(Effect::CheckConsistency { subject: None });
        Ok(Outcome { value: bond, effects })
    }

    /// What the penalty on an early withdrawal of `amount` is computed from.
    pub fn early_exit_query(&self, call: &Call, identity: Address, amount: i128) -> (r: Result<
        PenaltyQuery,
        Revert,
    >)
        ensures
            answers(r, early_query_refusal(self@, *call, identity, amount)),
            r matches Ok(q) ==> q == penalty_query(self@, *call, amount),
    {
        self.require_gate(call, &identity)?;
        let bond = self.load_bond()?;
        let _left: i128 = require_balance(&bond, amount)?;
        let end: u64 = bond.bond_start.saturating_add(bond.bond_duration);
        if call.now >= end {
            return Err(Revert::Contract(ContractError::LockupNotExpired));
        }
        match self.early_exit {
            None => Err(Revert::Contract(ContractError::EarlyExitConfigNotSet)),
            Some(config) => Ok(
                PenaltyQuery {
                    amount,
                    remaining: end - call.now,
                    bond_duration: bond.bond_duration,
                    penalty_bps: config.penalty_bps,
                },
            ),
        }
    }

    /// [`CredenceBond::withdraw_early`] up to its transfers, during which the lock is held.
    pub fn withdraw_early_begin(
        &mut self,
        call: &Call,
        identity: Address,
        amount: i128,
        penalty: i128,
    ) -> (r: Result<Outcome<IdentityBond>, Revert>)
        ensures
            transacts(
                old(self)@,
                final(self)@,
                r,
                early_refusal(old(self)@, *call, identity, amount, penalty),
                State {
                    locked: true,
                    ..with_bond(old(self)@, reduced(old(self)@.bond->0, amount))
                },
                reduced(old(self)@.bond->0, amount),
                early_effects(old(self)@, amount, penalty),
            ),
    {
        let _query = self.early_exit_query(call, identity, amount)?;
        let mut bond = self.load_bond()?;
        let treasury = match self.early_exit {
            None => return Err(Revert::Contract(ContractError::EarlyExitConfigNotSet)),
            Some(config) => config.treasury,
        };
        let net: i128 = match amount.checked_sub(penalty) {
            None => return Err(Revert::Contract(ContractError::Underflow)),
            Some(n) => n,
        };
        if penalty < 0 || penalty > amount {
            return Err(Revert::Contract(ContractError::InvariantViolation));
        }
        self.acquire_lock()?;
        let mut effects: Vec<Effect> = vec![
            Effect::Publish(
                Event::EarlyExitPenalty { identity: bond.identity, amount, penalty, treasury },
            ),
        ];
        assert(effects@ =~= seq![
            Effect::Publish(
                Event::EarlyExitPenalty { identity: bond.identity, amount, penalty, treasury },
            ),
        ]);
        let old_tier = self.get_tier_for_amount(bond.bonded_amount);
        bond.bonded_amount = bond.bonded_amount - amount;
        let new_tier = self.get_tier_for_amount(bond.bonded_amount);
        emit_tier_change_if_needed(&mut effects, bond.identity, old_tier, new_tier);
        self.bond = Some(bond);
        if penalty > 0 {
            effects.push(Effect::FeeTransferOut { to: treasury, amount: penalty });
        }
        if net > 0 {
            effects.push(Effect::TransferOut { to: bond.identity, amount: net });
        }
        Ok(Outcome { value: bond, effects })
    }

    /// Withdraw before lock-up end; applies a time-decayed penalty.
    ///
    /// Authority: `identity` must authorize the call.
    /// `penalty` is the penalty that the decay formula gives for the
    /// [`CredenceBond::early_exit_query`] of this call.
    pub fn withdraw_early(
        &mut self,
        call: &Call,
        identity: Address,
        amount: i128,
        penalty: i128,
    ) -> (r: Result<Outcome<IdentityBond>, Revert>)
        ensures
            transacts(
                old(self)@,
                final(self)@,
                r,
                early_refusal(old(self)@, *call, identity, amount, penalty),
                with_bond(old(self)@, reduced(old(self)@.bond->0, amount)),
                reduced(old(self)@.bond->0, amount),
                early_effects(old(self)@, amount, penalty).push(check_bond()),
            ),
    {
        let mut done = self.withdraw_early_begin(call, identity, amount, penalty)?;
        self.release_lock();
        done.effects.push(Effect::CheckConsistency { subject: None });
        Ok(done)
    }

    /// Request withdrawal for a rolling bond: starts the notice period clock.
    pub fn request_withdrawal(&mut self, call: &Call, identity: Address) -> (r: Result<
        Outcome<IdentityBond>,
        Revert,
    >)
        ensures
            transacts(
                old(self)@,
                final(self)@,
                r,
                request_refusal(old(self)@, *call, identity),
                with_bond(old(self)@, requested(old(self)@.bond->0, call.now)),
                requested(old(self)@.bond->0, call.now),
                seq![
                    Effect::Publish(
                        Event::WithdrawalRequested {
                            identity: old(self)@.bond->0.identity,
                            requested_at: call.now,
                        },
                    ),
                    check_bond(),
                ],
            ),
    {
        self.require_gate(call, &identity)?;
        let mut bond = self.load_bond()?;
        if !bond.is_rolling {
            return Err(Revert::Contract(ContractError::NotRollingBond));
        }
        if bond.withdrawal_requested_at != 0 {
            return Err(Revert::Contract(ContractError::WithdrawalAlreadyRequested));
        }
        bond.withdrawal_requested_at = call.now;
        self.bond = Some(bond);
        Ok(
            Outcome {
                value: bond,
                effects: vec![
                    Effect::Publish(
                        Event::WithdrawalRequested {
                            identity: bond.identity,
                            requested_at: bond.withdrawal_requested_at,
                        },
                    ),
                    Effect::CheckConsistency { subject: None },
                ],
            },
        )
    }

    /// Renew a rolling bond if the current period ended and withdrawal was not requested.
    ///
    /// No-op for non-rolling bonds or when a withdrawal has been requested.
    pub fn renew_if_rolling(&mut self, call: &Call, identity: Address) -> (r: Result<
        Outcome<IdentityBond>,
        Revert,
    >)
        ensures
            ({
                let b = old(self)@.bond->0;
                let due = due_for_renewal(b, call.now);
                let after = if due {
                    renewed(b, call.now)
                } else {
                    b
                };
                transacts(
                    old(self)@,
                    final(self)@,
                    r,
                    first_of(gate_refusal(old(self)@, *call, identity), bond_refusal(old(self)@)),
                    with_bond(old(self)@, after),
                    after,
                    if due {
                        seq![
                            bump_instance_ttl(),
                            Effect::Publish(
                                Event::BondRenewed {
                                    identity: b.identity,
                                    bond_start: call.now,
                                    bond_duration: b.bond_duration,
                                },
                            ),
                            check_bond(),
                        ]
                    } else {
                        seq![]
                    },
                )
            }),
    {
        self.require_gate(call, &identity)?;
        let mut bond = self.load_bond()?;
        if !bond.is_rolling {
            return Ok(Outcome { value: bond, effects: vec![] });
        }
        if bond.withdrawal_requested_at != 0 {
            return Ok(Outcome { value: bond, effects: vec![] });
        }
        if call.now < bond.bond_start.saturating_add(bond.bond_duration) {
            return Ok(Outcome { value: bond, effects: vec![] });
        }
        bond.bond_start = call.now;
        self.bond = Some(bond);
        Ok(
            Outcome {
                value: bond,
                effects: vec![
                    bump_instance_ttl(),
                    Effect::Publish(
                        Event::BondRenewed {
                            identity: bond.identity,
                            bond_start: bond.bond_start,
                            bond_duration: bond.bond_duration,
                        },
                    ),
                    Effect::CheckConsistency { subject: None },
                ],
            },
        )
    }

    /// The first half of [`CredenceBond::top_up`], up to the pull of the tokens, during which the
    /// lock is held. The bond that it returns is the one to hand to the second half.
    pub fn top_up_begin(&mut self, call: &Call, identity: Address, amount: i128) -> (r: Result<
        Outcome<IdentityBond>,
        Revert,
    >)
        ensures
            transacts(
                old(self)@,
                final(self)@,
                r,
                top_up_begin_refusal(old(self)@, *call, identity),
                State { locked: true, ..old(self)@ },
                old(self)@.bond->0,
                transfer_in(old(self)@, old(self)@.bond->0.identity, amount),
            ),
    {
        self.require_gate(call, &identity)?;
        if self.borrow_frozen {
            return Err(Revert::BorrowFrozen);
        }
        let bond = self.load_bond()?;
        self.acquire_lock()?;
        let mut effects: Vec<Effect> = Vec::new();
        if self.token.is_some() {
            effects.push(Effect::TransferIn { from: bond.identity, amount });
        }
        Ok(Outcome { value: bond, effects })
    }

    /// The second half of [`CredenceBond::top_up`], once the tokens are in.
    ///
    /// `bond` is the bond that the first half returned, and `check` the answer of the amount and
    /// leverage rules on its new bonded amount.
    pub fn top_up_finish(&mut self, bond: IdentityBond, amount: i128, check: Verdict) -> (r: Result<
        Outcome<IdentityBond>,
        Revert,
    >)
        ensures
            transacts(
                old(self)@,
                final(self)@,
                r,
                top_up_finish_refusal(bond, amount, check),
                State { locked: false, ..with_bond(old(self)@, topped_up(bond, amount)) },
                topped_up(bond, amount),
                top_up_effects(old(self)@, seq![], bond, amount),
            ),
    {
        let mut bond = bond;
        let total: i128 = match bond.bonded_amount.checked_add(amount) {
            None => return Err(Revert::Contract(ContractError::Overflow)),
            Some(t) => t,
        };
        let old_tier = self.get_tier_for_amount(
            saturating_difference(bond.bonded_amount, bond.slashed_amount),
        );
        check?;
        bond.bonded_amount = total;
        let new_tier = self.get_tier_for_amount(
            saturating_difference(bond.bonded_amount, bond.slashed_amount),
        );
        let mut effects: Vec<Effect> = Vec::new();
        emit_tier_change_if_needed(&mut effects, bond.identity, old_tier, new_tier);
        self.bond = Some(bond);
        effects.push(bump_instance_ttl());
        self.release_lock();
        effects.push(Effect::CheckConsistency { subject: None });
        Ok(Outcome { value: bond, effects })
    }

    /// Top up the bond amount.
    ///
    /// `check` is the answer of the amount and leverage rules on the new bonded amount.
    pub fn top_up(
        &mut self,
        call: &Call,
        identity: Address,
        amount: i128,
        check: Verdict,
    ) -> (r: Result<Outcome<IdentityBond>, Revert>)
        ensures
            ({
                let b = old(self)@.bond->0;
                transacts(
                    old(self)@,
                    final(self)@,
                    r,
                    first_of(
                        top_up_begin_refusal(old(self)@, *call, identity),
                        top_up_finish_refusal(b, amount, check),
                    ),
                    with_bond(old(self)@, topped_up(b, amount)),
                    topped_up(b, amount),
                    top_up_effects(
                        old(self)@,
                        transfer_in(old(self)@, b.identity, amount),
                        b,
                        amount,
                    ),
                )
            }),
    {
        let begun = self.top_up_begin(call, identity, amount)?;
        match self.top_up_finish(begun.value, amount, check) {
            Err(e) => {
                self.release_lock();
                Err(e)
            },
            Ok(done) => Ok(
                Outcome {
                    value: done.value,
                    effects: join_effects(begun.effects, done.effects),
                },
            ),
        }
    }

    /// Extend the bond duration.
    pub fn extend_duration(
        &mut self,
        call: &Call,
        identity: Address,
        additional_duration: u64,
    ) -> (r: Result<Outcome<IdentityBond>, Revert>)
        ensures
            transacts(
                old(self)@,
                final(self)@,
                r,
                extend_refusal(old(self)@, *call, identity, additional_duration),
                with_bond(old(self)@, extended(old(self)@.bond->0, additional_duration)),
                extended(old(self)@.bond->0, additional_duration),
                seq![bump_instance_ttl(), check_bond()],
            ),
    {
        self.require_gate(call, &identity)?;
        let mut bond = self.load_bond()?;
        bond.bond_duration = match bond.bond_duration.checked_add(additional_duration) {
            None => return Err(Revert::Contract(ContractError::Overflow)),
            Some(d) => d,
        };
        if bond.bond_start.checked_add(bond.bond_duration).is_none() {
            return Err(Revert::Contract(ContractError::Overflow));
        }
        self.bond = Some(bond);
        Ok(
            Outcome {
                value: bond,
                effects: vec![bump_instance_ttl(), Effect::CheckConsistency { subject: None }],
            },
        )
    }

    /// [`CredenceBond::withdraw_bond`] up to its callback, during which the lock is held.
    pub fn withdraw_bond_begin(&mut self, call: &Call, identity: Address) -> (r: Result<
        Outcome<i128>,
        Revert,
    >)
        ensures
            transacts(
                old(self)@,
                final(self)@,
                r,
                close_refusal(old(self)@, *call, identity),
                State { locked: true, ..with_bond(old(self)@, emptied(old(self)@.bond->0)) },
                available(old(self)@.bond->0) as i128,
                with_callback(
                    old(self)@,
                    seq![bump_instance_ttl(), check_bond()],
                    Hook::OnWithdraw,
                    available(old(self)@.bond->0) as i128,
                ),
            ),
    {
        self.require_gate(call, &identity)?;
        if self.locked {
            return Err(Revert::Contract(ContractError::ReentrancyDetected));
        }
        let mut bond = self.load_bond()?;
        if bond.identity != identity {
            return Err(Revert::Contract(ContractError::NotBondOwner));
        }
        if !bond.active {
            return Err(Revert::Contract(ContractError::BondNotActive));
        }
        require_notice(&bond, call.now)?;
        let amount: i128 = match bond.bonded_amount.checked_sub(bond.slashed_amount) {
            None => return Err(Revert::ArithmeticOverflow),
            Some(a) => a,
        };
        self.locked = true;
        bond.bonded_amount = 0;
        bond.active = false;
        self.bond = Some(bond);
        let mut effects: Vec<Effect> = vec![
            bump_instance_ttl(),
            Effect::CheckConsistency { subject: None },
        ];
        assert(effects@ =~= seq![bump_instance_ttl(), check_bond()]);
        push_callback(&mut effects, self.callback, Hook::OnWithdraw, amount);
        Ok(Outcome { value: amount, effects })
    }

    /// Withdraw the full bonded amount with a reentrancy guard.
    pub fn withdraw_bond(&mut self, call: &Call, identity: Address) -> (r: Result<
        Outcome<i128>,
        Revert,
    >)
        ensures
            transacts(
                old(self)@,
                final(self)@,
                r,
                close_refusal(old(self)@, *call, identity),
                with_bond(old(self)@, emptied(old(self)@.bond->0)),
                available(old(self)@.bond->0) as i128,
                with_callback(
                    old(self)@,
                    seq![bump_instance_ttl(), check_bond()],
                    Hook::OnWithdraw,
                    available(old(self)@.bond->0) as i128,
                ),
            ),
    {
        let done = self.withdraw_bond_begin(call, identity)?;
        self.release_lock();
        Ok(done)
    }
}

} // verus!
