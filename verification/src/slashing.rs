//! Slashing and liquidation of the bond.
use crate::address::Address;
use crate::amount::{clamp_amount, fits_amount, saturating_difference};
use crate::bytes::copy_bytes;
use crate::call::Call;
use crate::effect::{
    answers, bump_instance_ttl, check_bond, first_of, push_if, refuse_if, verdict_refusal, Effect,
    Event, Hook, LiquidationReason, Outcome,
};
use crate::error::{ContractError, Revert, Verdict};
use crate::lifecycle::{available, push_callback, saturated_end, with_bond, with_callback};
use crate::state::{
    admin_gate_refusal, admin_refusal, bond_refusal, gate_refusal, lock_refusal, transacts,
    CredenceBond, State,
};
use crate::table::get_or;
use crate::types::{IdempotencyKey, IdempotencyModel, IdentityBond, Operation};
use vstd::prelude::*;

verus! {

/// The key of a submission.
pub open spec fn submission(actor: Address, operation: Operation, salt: Seq<u8>) -> IdempotencyModel {
    IdempotencyModel { actor, operation, salt }
}

/// The refusal of a submission whose salt was used before. An empty salt is never refused.
pub open spec fn repeat_refusal(
    s: State,
    actor: Address,
    operation: Operation,
    salt: Seq<u8>,
) -> Option<Revert> {
    refuse_if(
        salt.len() > 0 && s.idempotency_keys.contains_key(submission(actor, operation, salt)),
        Revert::Contract(ContractError::DuplicateIdempotencyKey),
    )
}

/// The state once a submission is noted. A submission with an empty salt is not noted.
pub open spec fn noted(s: State, actor: Address, operation: Operation, salt: Seq<u8>) -> State {
    if salt.len() > 0 {
        State {
            idempotency_keys: s.idempotency_keys.insert(submission(actor, operation, salt), true),
            ..s
        }
    } else {
        s
    }
}

/// Why a guarded slash is refused.
pub open spec fn slash_bond_refusal(
    s: State,
    call: Call,
    admin: Address,
    slash_amount: i128,
    salt: Seq<u8>,
) -> Option<Revert> {
    let b = s.bond->0;
    first_of(
        gate_refusal(s, call, admin),
        first_of(
            repeat_refusal(s, admin, Operation::SlashBond, salt),
            first_of(
                lock_refusal(s),
                first_of(
                    admin_refusal(s, admin),
                    first_of(
                        bond_refusal(s),
                        first_of(
                            refuse_if(!b.active, Revert::Contract(ContractError::BondNotActive)),
                            first_of(
                                refuse_if(
                                    !fits_amount(b.slashed_amount + slash_amount),
                                    Revert::ArithmeticOverflow,
                                ),
                                refuse_if(
                                    b.slashed_amount + slash_amount > b.bonded_amount,
                                    Revert::Contract(ContractError::SlashExceedsBond),
                                ),
                            ),
                        ),
                    ),
                ),
            ),
        ),
    )
}

/// A bond with a given cumulative slash.
pub open spec fn with_slashed(b: IdentityBond, slashed_amount: int) -> IdentityBond {
    IdentityBond { slashed_amount: slashed_amount as i128, ..b }
}

/// Why a slash to the treasury is refused.
pub open spec fn slash_refusal(
    s: State,
    call: Call,
    admin: Address,
    amount: i128,
    admitted: Verdict,
) -> Option<Revert> {
    let b = s.bond->0;
    first_of(
        admin_gate_refusal(s, call, admin),
        first_of(
            bond_refusal(s),
            first_of(
                refuse_if(
                    s.slash_treasury is None,
                    Revert::Contract(ContractError::TreasuryNotConfigured),
                ),
                first_of(
                    verdict_refusal(admitted),
                    first_of(
                        refuse_if(
                            amount > b.bonded_amount,
                            Revert::Contract(ContractError::SlashExceedsBond),
                        ),
                        refuse_if(
                            !fits_amount(b.slashed_amount + amount),
                            Revert::Contract(ContractError::Overflow),
                        ),
                    ),
                ),
            ),
        ),
    )
}

/// The cumulative slash after a slash to the treasury: it never goes past the bonded amount.
pub open spec fn capped_slash(b: IdentityBond, amount: i128) -> int {
    if b.slashed_amount + amount > b.bonded_amount {
        b.bonded_amount as int
    } else {
        b.slashed_amount + amount
    }
}

/// What a slash to the treasury takes.
pub open spec fn slash_taken(b: IdentityBond, amount: i128) -> int {
    capped_slash(b, amount) - b.slashed_amount
}

/// Whether a bond is fully slashed.
pub open spec fn fully_slashed(b: IdentityBond) -> bool {
    b.slashed_amount >= b.bonded_amount
}

/// Whether a bond of fixed duration has run out.
pub open spec fn expired_unrenewed(b: IdentityBond, now: u64) -> bool {
    !b.is_rolling && now >= saturated_end(b)
}

/// Why a liquidation is refused.
pub open spec fn liquidate_refusal(s: State, call: Call, admin: Address) -> Option<Revert> {
    let b = s.bond->0;
    first_of(
        gate_refusal(s, call, admin),
        first_of(
            lock_refusal(s),
            first_of(
                bond_refusal(s),
                first_of(
                    admin_refusal(s, admin),
                    first_of(
                        refuse_if(!b.active, Revert::Contract(ContractError::BondNotActive)),
                        refuse_if(
                            !fully_slashed(b) && !expired_unrenewed(b, call.now),
                            Revert::NotEligibleForLiquidation,
                        ),
                    ),
                ),
            ),
        ),
    )
}

/// A bond that was liquidated.
pub open spec fn finalized(b: IdentityBond) -> IdentityBond {
    IdentityBond { active: false, ..b }
}

/// The state once its bond is liquidated.
pub open spec fn liquidate_next(s: State) -> State {
    State {
        liquidated: s.liquidated.insert(s.bond->0.identity, true),
        ..with_bond(s, finalized(s.bond->0))
    }
}

/// What a liquidated bond leaves.
pub open spec fn residual(b: IdentityBond) -> i128 {
    clamp_amount(available(b))
}

/// The effects of a liquidation: what the bond leaves is swept to the treasury, where there is a
/// treasury, a token and something to sweep, and the event tells of it in any case.
pub open spec fn liquidate_effects(s: State, call: Call, admin: Address) -> Seq<Effect> {
    let b = s.bond->0;
    push_if(
        seq![bump_instance_ttl(), bump_instance_ttl(), check_bond()],
        s.liquidation_treasury is Some && s.token is Some && residual(b) > 0,
        Effect::Sweep { to: s.liquidation_treasury->0, amount: residual(b) },
    ).push(
        Effect::Publish(
            Event::BondLiquidated {
                identity: b.identity,
                residual: residual(b),
                reason: if fully_slashed(b) {
                    LiquidationReason::FullySlashed
                } else {
                    LiquidationReason::ExpiredUnrenewed
                },
                timestamp: call.now,
                admin,
            },
        ),
    )
}

impl CredenceBond {
    /// Refuses a submission whose salt was used before.
    pub(crate) fn require_fresh(
        &self,
        actor: &Address,
        operation: Operation,
        salt: &Vec<u8>,
    ) -> (r: Result<(), Revert>)
        ensures
            answers(r, repeat_refusal(self@, *actor, operation, salt@)),
    {
        if salt.len() > 0 {
            let key = IdempotencyKey { actor: *actor, operation, salt: copy_bytes(salt) };
            if self.idempotency_keys.contains(&key) {
                return Err(Revert::Contract(ContractError::DuplicateIdempotencyKey));
            }
        }
        Ok(())
    }

    /// Notes a submission, unless its salt is empty.
    pub(crate) fn note_submission(
        &mut self,
        actor: &Address,
        operation: Operation,
        salt: &Vec<u8>,
    )
        ensures
            final(self)@ == noted(old(self)@, *actor, operation, salt@),
    {
        if salt.len() > 0 {
            let key = IdempotencyKey { actor: *actor, operation, salt: copy_bytes(salt) };
            self.idempotency_keys.insert(key, true);
        }
    }

    /// [`CredenceBond::slash_bond`] up to its callback, during which the lock is held.
    pub fn slash_bond_begin(
        &mut self,
        call: &Call,
        admin: Address,
        slash_amount: i128,
        idempotency_salt: &Vec<u8>,
    ) -> (r: Result<Outcome<i128>, Revert>)
        ensures
            ({
                let b = old(self)@.bond->0;
                transacts(
                    old(self)@,
                    final(self)@,
                    r,
                    slash_bond_refusal(
                        old(self)@,
                        *call,
                        admin,
                        slash_amount,
                        idempotency_salt@,
                    ),
                    State {
                        locked: true,
                        ..with_bond(
                            noted(old(self)@, admin, Operation::SlashBond, idempotency_salt@),
                            with_slashed(b, b.slashed_amount + slash_amount),
                        )
                    },
                    (b.slashed_amount + slash_amount) as i128,
                    with_callback(old(self)@, seq![check_bond()], Hook::OnSlash, slash_amount),
                )
            }),
    {
        self.require_gate(call, &admin)?;
        self.require_fresh(&admin, Operation::SlashBond, idempotency_salt)?;
        if self.locked {
            return Err(Revert::Contract(ContractError::ReentrancyDetected));
        }
        self.require_admin(&admin)?;
        let mut bond = self.load_bond()?;
        if !bond.active {
            return Err(Revert::Contract(ContractError::BondNotActive));
        }
        let new_slashed: i128 = match bond.slashed_amount.checked_add(slash_amount) {
            None => return Err(Revert::ArithmeticOverflow),
            Some(n) => n,
        };
        if new_slashed > bond.bonded_amount {
            return Err(Revert::Contract(ContractError::SlashExceedsBond));
        }
        self.note_submission(&admin, Operation::SlashBond, idempotency_salt);
        self.locked = true;
        bond.slashed_amount = new_slashed;
        self.bond = Some(bond);
        let mut effects: Vec<Effect> = vec![Effect::CheckConsistency { subject: None }];
        assert(effects@ =~= seq![check_bond()]);
        push_callback(&mut effects, self.callback, Hook::OnSlash, slash_amount);
        Ok(Outcome { value: new_slashed, effects })
    }

    /// Slash a portion of the bond with a reentrancy guard.
    ///
    /// Returns the cumulative slashed amount after this operation.
    pub fn slash_bond(
        &mut self,
        call: &Call,
        admin: Address,
        slash_amount: i128,
        idempotency_salt: &Vec<u8>,
    ) -> (r: Result<Outcome<i128>, Revert>)
        ensures
            ({
                let b = old(self)@.bond->0;
                transacts(
                    old(self)@,
                    final(self)@,
                    r,
                    slash_bond_refusal(
                        old(self)@,
                        *call,
                        admin,
                        slash_amount,
                        idempotency_salt@,
                    ),
                    with_bond(
                        noted(old(self)@, admin, Operation::SlashBond, idempotency_salt@),
                        with_slashed(b, b.slashed_amount + slash_amount),
                    ),
                    (b.slashed_amount + slash_amount) as i128,
                    with_callback(old(self)@, seq![check_bond()], Hook::OnSlash, slash_amount),
                )
            }),
    {
        let done = self.slash_bond_begin(call, admin, slash_amount, idempotency_salt)?;
        self.release_lock();
        Ok(done)
    }

    /// Slash a bond to the slash treasury and return the updated bond state.
    ///
    /// The cumulative slash stops at the bonded amount, and the treasury receives what the slash
    /// adds to it. `admitted` is the answer of the slashing rules that stand outside the bond,
    /// such as the guard against a slash in the ledger in which collateral came in.
    pub fn slash(&mut self, call: &Call, admin: Address, amount: i128, admitted: Verdict) -> (r:
        Result<Outcome<IdentityBond>, Revert>)
        ensures
            ({
                let b = old(self)@.bond->0;
                transacts(
                    old(self)@,
                    final(self)@,
                    r,
                    slash_refusal(old(self)@, *call, admin, amount, admitted),
                    with_bond(old(self)@, with_slashed(b, capped_slash(b, amount))),
                    with_slashed(b, capped_slash(b, amount)),
                    push_if(
                        seq![],
                        slash_taken(b, amount) > 0,
                        Effect::TransferOut {
                            to: old(self)@.slash_treasury->0,
                            amount: clamp_amount(slash_taken(b, amount)),
                        },
                    ),
                )
            }),
    {
        self.require_admin_gate(call, &admin)?;
        let mut bond = self.load_bond()?;
        let treasury = match self.slash_treasury {
            None => return Err(Revert::Contract(ContractError::TreasuryNotConfigured)),
            Some(t) => t,
        };
        admitted?;
        if amount > bond.bonded_amount {
            return Err(Revert::Contract(ContractError::SlashExceedsBond));
        }
        let sum: i128 = match bond.slashed_amount.checked_add(amount) {
            None => return Err(Revert::Contract(ContractError::Overflow)),
            Some(n) => n,
        };
        let new_slashed: i128 = if sum > bond.bonded_amount {
            bond.bonded_amount
        } else {
            sum
        };
        let taken: i128 = saturating_difference(new_slashed, bond.slashed_amount);
        let mut effects: Vec<Effect> = Vec::new();
        if taken > 0 {
            effects.push(Effect::TransferOut { to: treasury, amount: taken });
        }
        bond.slashed_amount = new_slashed;
        self.bond = Some(bond);
        Ok(Outcome { value: bond, effects })
    }

    /// Configure the treasury recipient for residual funds swept by
    /// [`CredenceBond::liquidate`]. Admin-only.
    pub fn set_liquidation_treasury(
        &mut self,
        call: &Call,
        admin: Address,
        treasury: Address,
    ) -> (r: Result<Outcome<()>, Revert>)
        ensures
            transacts(
                old(self)@,
                final(self)@,
                r,
                admin_gate_refusal(old(self)@, *call, admin),
                State { liquidation_treasury: Some(treasury), ..old(self)@ },
                (),
                seq![
                    bump_instance_ttl(),
                    Effect::Publish(Event::LiquidationTreasurySet { treasury }),
                ],
            ),
    {
        self.require_admin_gate(call, &admin)?;
        self.liquidation_treasury = Some(treasury);
        Ok(
            Outcome {
                value: (),
                effects: vec![
                    bump_instance_ttl(),
                    Effect::Publish(Event::LiquidationTreasurySet { treasury }),
                ],
            },
        )
    }

    /// Read the currently configured liquidation treasury, or `None`.
    pub fn get_liquidation_treasury(&self) -> (r: Option<Address>)
        ensures
            r == self@.liquidation_treasury,
    {
        self.liquidation_treasury
    }

    /// Configure the treasury address that receives slashed funds on every
    /// [`CredenceBond::slash`] call. Admin-only.
    pub fn set_slash_treasury(
        &mut self,
        call: &Call,
        admin: Address,
        treasury: Address,
    ) -> (r: Result<Outcome<()>, Revert>)
        ensures
            transacts(
                old(self)@,
                final(self)@,
                r,
                admin_gate_refusal(old(self)@, *call, admin),
                State { slash_treasury: Some(treasury), ..old(self)@ },
                (),
                seq![
                    bump_instance_ttl(),
                    Effect::Publish(Event::SlashTreasurySet { treasury }),
                ],
            ),
    {
        self.require_admin_gate(call, &admin)?;
        self.slash_treasury = Some(treasury);
        Ok(
            Outcome {
                value: (),
                effects: vec![
                    bump_instance_ttl(),
                    Effect::Publish(Event::SlashTreasurySet { treasury }),
                ],
            },
        )
    }

    /// Read the currently configured slash treasury address, or `None`.
    pub fn get_slash_treasury(&self) -> (r: Option<Address>)
        ensures
            r == self@.slash_treasury,
    {
        self.slash_treasury
    }

    /// Has a bond been finalized via [`CredenceBond::liquidate`]?
    pub fn is_liquidated(&self, identity: &Address) -> (r: bool)
        ensures
            r == get_or(self@.liquidated, *identity, false),
    {
        match self.liquidated.get(identity) {
            Some(b) => *b,
            None => false,
        }
    }

    /// [`CredenceBond::liquidate`] up to the release of its lock.
    pub fn liquidate_begin(&mut self, call: &Call, admin: Address) -> (r: Result<
        Outcome<IdentityBond>,
        Revert,
    >)
        ensures
            transacts(
                old(self)@,
                final(self)@,
                r,
                liquidate_refusal(old(self)@, *call, admin),
                State { locked: true, ..liquidate_next(old(self)@) },
                finalized(old(self)@.bond->0),
                liquidate_effects(old(self)@, *call, admin),
            ),
    {
        self.require_gate(call, &admin)?;
        if self.locked {
            return Err(Revert::Contract(ContractError::ReentrancyDetected));
        }
        let mut bond = self.load_bond()?;
        self.require_admin(&admin)?;
        if !bond.active {
            return Err(Revert::Contract(ContractError::BondNotActive));
        }
        let end: u64 = bond.bond_start.saturating_add(bond.bond_duration);
        let slashed_out: bool = bond.slashed_amount >= bond.bonded_amount;
        let expired: bool = !bond.is_rolling && call.now >= end;
        if !slashed_out && !expired {
            return Err(Revert::NotEligibleForLiquidation);
        }
        let rest: i128 = saturating_difference(bond.bonded_amount, bond.slashed_amount);
        self.locked = true;
        bond.active = false;
        self.bond = Some(bond);
        self.liquidated.insert(bond.identity, true);
        let mut effects: Vec<Effect> = vec![
            bump_instance_ttl(),
            bump_instance_ttl(),
            Effect::CheckConsistency { subject: None },
        ];
        assert(effects@ =~= seq![bump_instance_ttl(), bump_instance_ttl(), check_bond()]);
        match self.liquidation_treasury {
            Some(treasury) => {
                if self.token.is_some() && rest > 0 {
                    effects.push(Effect::Sweep { to: treasury, amount: rest });
                }
            },
            None => {},
        }
        let reason = if slashed_out {
            LiquidationReason::FullySlashed
        } else {
            LiquidationReason::ExpiredUnrenewed
        };
        effects.push(
            Effect::Publish(
                Event::BondLiquidated {
                    identity: bond.identity,
                    residual: rest,
                    reason,
                    timestamp: call.now,
                    admin,
                },
            ),
        );
        Ok(Outcome { value: bond, effects })
    }

    /// Finalize a bond that is either fully slashed or has expired without renewal.
    ///
    /// Marks the bond inactive and its identity liquidated, sweeps what the bond leaves to the
    /// configured treasury as far as the token lets it, and publishes a liquidation event.
    pub fn liquidate(&mut self, call: &Call, admin: Address) -> (r: Result<
        Outcome<IdentityBond>,
        Revert,
    >)
        ensures
            transacts(
                old(self)@,
                final(self)@,
                r,
                liquidate_refusal(old(self)@, *call, admin),
                liquidate_next(old(self)@),
                finalized(old(self)@.bond->0),
                liquidate_effects(old(self)@, *call, admin),
            ),
    {
        let done = self.liquidate_begin(call, admin)?;
        self.release_lock();
        Ok(done)
    }
}

} // verus!
