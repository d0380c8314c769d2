//! Administration: set-up, configuration, pausing and hand-over of roles.
use crate::address::Address;
use crate::call::Call;
use crate::effect::{
    answers, first_of, push_if, refuse_if, verdict_refusal, Effect, Event, Outcome,
};
use crate::error::{ContractError, Revert, Verdict};
use crate::state::{
    admin_gate_refusal, auth_refusal, gate_refusal, pause_refusal, standing_admin_refusal,
    transacts, CredenceBond, State,
};
use crate::types::{BondConfigView, EarlyExitConfig};
use vstd::prelude::*;

verus! {

/// Highest penalty rate, in basis points.
pub const MAX_PENALTY_BPS: u32 = 10_000;

/// Why set-up is refused.
pub open spec fn initialize_refusal(s: State, call: Call, admin: Address) -> Option<Revert> {
    first_of(
        pause_refusal(s),
        first_of(
            refuse_if(
                s.admin is Some,
                Revert::Contract(ContractError::AlreadyInitialized),
            ),
            auth_refusal(call, admin),
        ),
    )
}

/// The effects of set-up: the registration with a registry, where one is given.
pub open spec fn initialize_effects(
    call: Call,
    admin: Address,
    registry: Option<Address>,
) -> Seq<Effect> {
    push_if(
        seq![],
        registry is Some,
        Effect::Register { registry: registry->0, contract: call.contract, admin },
    )
}

/// Why a transfer of the admin role is refused.
pub open spec fn transfer_admin_refusal(
    s: State,
    call: Call,
    current_admin: Address,
    new_admin: Address,
) -> Option<Revert> {
    first_of(
        gate_refusal(s, call, current_admin),
        first_of(
            auth_refusal(call, new_admin),
            match s.admin {
                None => Some(Revert::Contract(ContractError::NotInitialized)),
                Some(stored) => first_of(
                    refuse_if(stored != current_admin, Revert::Contract(ContractError::NotAdmin)),
                    first_of(
                        refuse_if(
                            stored == new_admin,
                            Revert::Contract(ContractError::AdminUnchanged),
                        ),
                        refuse_if(
                            new_admin.spec_is_zero(),
                            Revert::Contract(ContractError::InvalidAdminAddress),
                        ),
                    ),
                ),
            },
        ),
    )
}

/// Why pausing or unpausing is refused.
pub open spec fn pauser_refusal(s: State, call: Call, caller: Address) -> Option<Revert> {
    first_of(
        auth_refusal(call, caller),
        match s.admin {
            None => Some(Revert::PauseNotInitialized),
            Some(a) => refuse_if(a != caller, Revert::PauseNotAdmin),
        },
    )
}

impl CredenceBond {
    /// Initialize the contract with admin authority, and register it with a registry where one is
    /// given.
    pub fn initialize(&mut self, call: &Call, admin: Address, registry: Option<Address>) -> (r:
        Result<Outcome<()>, Revert>)
        ensures
            transacts(
                old(self)@,
                final(self)@,
                r,
                initialize_refusal(old(self)@, *call, admin),
                State { admin: Some(admin), ..old(self)@ },
                (),
                initialize_effects(*call, admin, registry),
            ),
    {
        self.require_not_paused()?;
        if self.admin.is_some() {
            return Err(Revert::Contract(ContractError::AlreadyInitialized));
        }
        if !call.authorized(&admin) {
            return Err(Revert::Unauthorized);
        }
        self.admin = Some(admin);
        let mut effects: Vec<Effect> = Vec::new();
        match registry {
            Some(registry) => effects.push(
                Effect::Register { registry, contract: call.contract, admin },
            ),
            None => {},
        }
        Ok(Outcome { value: (), effects })
    }

    /// Initialize and attempt trustless self-registration with a registry.
    pub fn initialize_with_registry(
        &mut self,
        call: &Call,
        admin: Address,
        registry: Address,
    ) -> (r: Result<Outcome<()>, Revert>)
        ensures
            transacts(
                old(self)@,
                final(self)@,
                r,
                initialize_refusal(old(self)@, *call, admin),
                State { admin: Some(admin), ..old(self)@ },
                (),
                seq![Effect::Register { registry, contract: call.contract, admin }],
            ),
    {
        self.initialize(call, admin, Some(registry))
    }

    /// Set the set of accepted token addresses. Only callable by admin.
    pub fn set_accepted_tokens(
        &mut self,
        call: &Call,
        admin: Address,
        accepted_tokens: Vec<Address>,
    ) -> (r: Result<Outcome<()>, Revert>)
        ensures
            transacts(
                old(self)@,
                final(self)@,
                r,
                first_of(
                    admin_gate_refusal(old(self)@, *call, admin),
                    refuse_if(accepted_tokens@.len() == 0, Revert::EmptyTokenList),
                ),
                State { accepted_tokens: accepted_tokens@, ..old(self)@ },
                (),
                seq![],
            ),
    {
        self.require_admin_gate(call, &admin)?;
        if accepted_tokens.len() == 0 {
            return Err(Revert::EmptyTokenList);
        }
        self.accepted_tokens = accepted_tokens;
        Ok(Outcome { value: (), effects: vec![] })
    }

    /// Configure the token contract used for bond custody and withdrawals.
    ///
    /// `verdict` is the answer of the token rules on the token.
    pub fn set_token(
        &mut self,
        call: &Call,
        admin: Address,
        token: Address,
        verdict: Verdict,
    ) -> (r: Result<Outcome<()>, Revert>)
        ensures
            transacts(
                old(self)@,
                final(self)@,
                r,
                first_of(
                    admin_gate_refusal(old(self)@, *call, admin),
                    verdict_refusal(verdict),
                ),
                State { token: Some(token), ..old(self)@ },
                (),
                seq![],
            ),
    {
        self.require_admin_gate(call, &admin)?;
        verdict?;
        self.token = Some(token);
        Ok(Outcome { value: (), effects: vec![] })
    }

    /// Return a structured snapshot of all contract configuration, or `None` when the contract
    /// has not been initialized yet.
    pub fn describe_config(&self) -> (r: Option<BondConfigView>)
        ensures
            r is Some <==> self@.admin is Some,
            r matches Some(v) ==> {
                &&& Some(v.admin) == self@.admin
                &&& match self@.early_exit {
                    Some(c) => v.early_exit_treasury == Some(c.treasury)
                        && v.early_exit_penalty_bps == Some(c.penalty_bps),
                    None => v.early_exit_treasury is None && v.early_exit_penalty_bps is None,
                }
                &&& v.weight_multiplier_bps == self@.weight_config.multiplier_bps
                &&& v.weight_max == self@.weight_config.max_weight
            },
    {
        match self.admin {
            None => None,
            Some(admin) => {
                let (treasury, penalty) = match self.early_exit {
                    Some(c) => (Some(c.treasury), Some(c.penalty_bps)),
                    None => (None, None),
                };
                Some(
                    BondConfigView {
                        admin,
                        early_exit_treasury: treasury,
                        early_exit_penalty_bps: penalty,
                        weight_multiplier_bps: self.weight_config.multiplier_bps,
                        weight_max: self.weight_config.max_weight,
                    },
                )
            },
        }
    }

    /// Configure early exit penalty parameters.
    pub fn set_early_exit_config(
        &mut self,
        call: &Call,
        admin: Address,
        treasury: Address,
        penalty_bps: u32,
    ) -> (r: Result<Outcome<()>, Revert>)
        ensures
            transacts(
                old(self)@,
                final(self)@,
                r,
                first_of(
                    admin_gate_refusal(old(self)@, *call, admin),
                    refuse_if(penalty_bps > MAX_PENALTY_BPS, Revert::PenaltyRateOutOfRange),
                ),
                State {
                    early_exit: Some(EarlyExitConfig { treasury, penalty_bps }),
                    ..old(self)@
                },
                (),
                seq![],
            ),
    {
        self.require_admin_gate(call, &admin)?;
        if penalty_bps > MAX_PENALTY_BPS {
            return Err(Revert::PenaltyRateOutOfRange);
        }
        self.early_exit = Some(EarlyExitConfig { treasury, penalty_bps });
        Ok(Outcome { value: (), effects: vec![] })
    }

    /// Returns true if borrows are frozen.
    pub fn is_borrow_frozen(&self) -> (r: bool)
        ensures
            r == self@.borrow_frozen,
    {
        self.borrow_frozen
    }

    /// Set whether borrows are frozen.
    pub fn set_borrow_frozen(&mut self, call: &Call, admin: Address, frozen: bool) -> (r: Result<
        Outcome<()>,
        Revert,
    >)
        ensures
            transacts(
                old(self)@,
                final(self)@,
                r,
                admin_gate_refusal(old(self)@, *call, admin),
                State { borrow_frozen: frozen, ..old(self)@ },
                (),
                seq![],
            ),
    {
        self.require_admin_gate(call, &admin)?;
        self.borrow_frozen = frozen;
        Ok(Outcome { value: (), effects: vec![] })
    }

    /// Register a callback contract, whose hooks the guarded operations invoke.
    ///
    /// Authority: the administrator must authorize the call.
    pub fn set_callback(&mut self, call: &Call, addr: Address) -> (r: Result<Outcome<()>, Revert>)
        ensures
            transacts(
                old(self)@,
                final(self)@,
                r,
                standing_admin_refusal(old(self)@, *call),
                State { callback: Some(addr), ..old(self)@ },
                (),
                seq![],
            ),
    {
        self.require_standing_admin(call)?;
        self.callback = Some(addr);
        Ok(Outcome { value: (), effects: vec![] })
    }

    /// Transfer the admin role to a new address.
    ///
    /// Both the current admin and the proposed new admin have to authorize the call.
    pub fn transfer_admin(
        &mut self,
        call: &Call,
        current_admin: Address,
        new_admin: Address,
    ) -> (r: Result<Outcome<()>, Revert>)
        ensures
            transacts(
                old(self)@,
                final(self)@,
                r,
                transfer_admin_refusal(old(self)@, *call, current_admin, new_admin),
                State { admin: Some(new_admin), ..old(self)@ },
                (),
                seq![
                    Effect::Publish(
                        Event::AdminTransferred { current_admin, new_admin },
                    ),
                ],
            ),
    {
        self.require_gate(call, &current_admin)?;
        if !call.authorized(&new_admin) {
            return Err(Revert::Unauthorized);
        }
        self.require_admin(&current_admin)?;
        if current_admin == new_admin {
            return Err(Revert::Contract(ContractError::AdminUnchanged));
        }
        if new_admin.is_zero() {
            return Err(Revert::Contract(ContractError::InvalidAdminAddress));
        }
        self.admin = Some(new_admin);
        Ok(
            Outcome {
                value: (),
                effects: vec![
                    Effect::Publish(
                        Event::AdminTransferred { current_admin, new_admin },
                    ),
                ],
            },
        )
    }

    /// Propose a new upgrade admin.
    ///
    /// `admin` must authorize the call. `verdict` is the answer of the upgrade rules to `admin` and
    /// `new_admin`.
    pub fn transfer_upgrade_admin(
        &mut self,
        call: &Call,
        admin: Address,
        new_admin: Address,
        verdict: Verdict,
    ) -> (r: Result<Outcome<()>, Revert>)
        ensures
            transacts(
                old(self)@,
                final(self)@,
                r,
                first_of(
                    gate_refusal(old(self)@, *call, admin),
                    verdict_refusal(verdict),
                ),
                State { pending_upgrade_admin: Some(new_admin), ..old(self)@ },
                (),
                seq![],
            ),
    {
        self.require_gate(call, &admin)?;
        verdict?;
        self.pending_upgrade_admin = Some(new_admin);
        Ok(Outcome { value: (), effects: vec![] })
    }

    /// Take up the role of upgrade admin.
    ///
    /// `caller` must authorize the call. `verdict` is the answer of the upgrade rules to `caller`.
    pub fn accept_upgrade_admin(
        &mut self,
        call: &Call,
        caller: Address,
        verdict: Verdict,
    ) -> (r: Result<Outcome<()>, Revert>)
        ensures
            transacts(
                old(self)@,
                final(self)@,
                r,
                first_of(
                    gate_refusal(old(self)@, *call, caller),
                    verdict_refusal(verdict),
                ),
                State {
                    upgrade_admin: Some(caller),
                    pending_upgrade_admin: None,
                    ..old(self)@
                },
                (),
                seq![],
            ),
    {
        self.require_gate(call, &caller)?;
        verdict?;
        self.upgrade_admin = Some(caller);
        self.pending_upgrade_admin = None;
        Ok(Outcome { value: (), effects: vec![] })
    }

    /// The proposed upgrade admin, or `None`.
    pub fn get_pending_upgrade_admin(&self) -> (r: Option<Address>)
        ensures
            r == self@.pending_upgrade_admin,
    {
        self.pending_upgrade_admin
    }

    /// Withdraw the proposal of a new upgrade admin.
    ///
    /// `admin` must authorize the call. `verdict` is the answer of the upgrade rules to `admin`.
    pub fn cancel_upgrade_admin_transfer(
        &mut self,
        call: &Call,
        admin: Address,
        verdict: Verdict,
    ) -> (r: Result<Outcome<()>, Revert>)
        ensures
            transacts(
                old(self)@,
                final(self)@,
                r,
                first_of(
                    gate_refusal(old(self)@, *call, admin),
                    verdict_refusal(verdict),
                ),
                State { pending_upgrade_admin: None, ..old(self)@ },
                (),
                seq![],
            ),
    {
        self.require_gate(call, &admin)?;
        verdict?;
        self.pending_upgrade_admin = None;
        Ok(Outcome { value: (), effects: vec![] })
    }

    /// Refuses a caller who may not pause the contract.
    fn require_pauser(&self, call: &Call, caller: &Address) -> (r: Result<(), Revert>)
        ensures
            answers(r, pauser_refusal(self@, *call, *caller)),
    {
        if !call.authorized(caller) {
            return Err(Revert::Unauthorized);
        }
        match self.admin {
            None => Err(Revert::PauseNotInitialized),
            Some(a) => if a != *caller {
                Err(Revert::PauseNotAdmin)
            } else {
                Ok(())
            },
        }
    }

    /// Pause the contract (single-admin path; no multisig threshold set).
    pub fn pause(&mut self, call: &Call, caller: Address) -> (r: Result<
        Outcome<Option<u64>>,
        Revert,
    >)
        ensures
            transacts(
                old(self)@,
                final(self)@,
                r,
                pauser_refusal(old(self)@, *call, caller),
                State { paused: true, ..old(self)@ },
                None,
                seq![],
            ),
    {
        self.require_pauser(call, &caller)?;
        self.paused = true;
        Ok(Outcome { value: None, effects: vec![] })
    }

    /// Unpause the contract (single-admin path).
    pub fn unpause(&mut self, call: &Call, caller: Address) -> (r: Result<
        Outcome<Option<u64>>,
        Revert,
    >)
        ensures
            transacts(
                old(self)@,
                final(self)@,
                r,
                pauser_refusal(old(self)@, *call, caller),
                State { paused: false, ..old(self)@ },
                None,
                seq![],
            ),
    {
        self.require_pauser(call, &caller)?;
        self.paused = false;
        Ok(Outcome { value: None, effects: vec![] })
    }

    /// Return whether the contract is currently paused.
    pub fn is_paused(&self) -> (r: bool)
        ensures
            r == self@.paused,
    {
        self.paused
    }
}

} // verus!
