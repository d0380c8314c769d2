//! The contract's ledger entries.
use crate::address::Address;
use crate::call::Call;
use crate::effect::{answers, first_of, refuse_if, Effect, Outcome};
use crate::error::{ContractError, Revert};
use crate::table::Table;
use crate::types::{
    Attestation, AttestationDedupKey, AttestationModel, DedupModel, DrainRecord, EarlyExitConfig,
    IdempotencyKey, IdempotencyModel, IdentityBond, Parameters, PendingClaim, TierThresholds,
    WeightConfig,
};
use vstd::prelude::*;

verus! {

/// The contract: all of its ledger entries, as plain values.
pub struct CredenceBond {
    pub admin: Option<Address>,
    pub paused: bool,
    pub locked: bool,
    pub bond: Option<IdentityBond>,
    pub accepted_tokens: Vec<Address>,
    pub token: Option<Address>,
    pub early_exit: Option<EarlyExitConfig>,
    pub weight_config: WeightConfig,
    pub tier_thresholds: TierThresholds,
    pub parameters: Parameters,
    pub borrow_frozen: bool,
    pub attesters: Table<Address, bool>,
    pub attester_stakes: Table<Address, i128>,
    pub attestations: Table<u64, Attestation>,
    pub attestation_counter: u64,
    pub subject_attestations: Table<Address, Vec<u64>>,
    pub subject_attestation_counts: Table<Address, u32>,
    pub dedup_keys: Table<AttestationDedupKey, bool>,
    pub nonces: Table<Address, u64>,
    pub fees: i128,
    pub callback: Option<Address>,
    pub liquidation_treasury: Option<Address>,
    pub slash_treasury: Option<Address>,
    pub liquidated: Table<Address, bool>,
    pub idempotency_keys: Table<IdempotencyKey, bool>,
    pub upgrade_admin: Option<Address>,
    pub pending_upgrade_admin: Option<Address>,
    pub emergency_treasury: Option<Address>,
    pub drain_eta: Option<u64>,
    pub latest_drain_id: u64,
    pub drain_records: Table<u64, DrainRecord>,
    pub claims: Table<Address, Vec<PendingClaim>>,
}

/// What a [`CredenceBond`] holds.
#[verifier::ext_equal]
pub struct State {
    pub admin: Option<Address>,
    pub paused: bool,
    pub locked: bool,
    pub bond: Option<IdentityBond>,
    pub accepted_tokens: Seq<Address>,
    pub token: Option<Address>,
    pub early_exit: Option<EarlyExitConfig>,
    pub weight_config: WeightConfig,
    pub tier_thresholds: TierThresholds,
    pub parameters: Parameters,
    pub borrow_frozen: bool,
    pub attesters: Map<Address, bool>,
    pub attester_stakes: Map<Address, i128>,
    pub attestations: Map<u64, AttestationModel>,
    pub attestation_counter: u64,
    pub subject_attestations: Map<Address, Seq<u64>>,
    pub subject_attestation_counts: Map<Address, u32>,
    pub dedup_keys: Map<DedupModel, bool>,
    pub nonces: Map<Address, u64>,
    pub fees: i128,
    pub callback: Option<Address>,
    pub liquidation_treasury: Option<Address>,
    pub slash_treasury: Option<Address>,
    pub liquidated: Map<Address, bool>,
    pub idempotency_keys: Map<IdempotencyModel, bool>,
    pub upgrade_admin: Option<Address>,
    pub pending_upgrade_admin: Option<Address>,
    pub emergency_treasury: Option<Address>,
    pub drain_eta: Option<u64>,
    pub latest_drain_id: u64,
    pub drain_records: Map<u64, DrainRecord>,
    pub claims: Map<Address, Seq<PendingClaim>>,
}

impl View for CredenceBond {
    type V = State;

    open spec fn view(&self) -> State {
        State {
            admin: self.admin,
            paused: self.paused,
            locked: self.locked,
            bond: self.bond,
            accepted_tokens: self.accepted_tokens@,
            token: self.token,
            early_exit: self.early_exit,
            weight_config: self.weight_config,
            tier_thresholds: self.tier_thresholds,
            parameters: self.parameters,
            borrow_frozen: self.borrow_frozen,
            attesters: self.attesters@,
            attester_stakes: self.attester_stakes@,
            attestations: self.attestations@,
            attestation_counter: self.attestation_counter,
            subject_attestations: self.subject_attestations@,
            subject_attestation_counts: self.subject_attestation_counts@,
            dedup_keys: self.dedup_keys@,
            nonces: self.nonces@,
            fees: self.fees,
            callback: self.callback,
            liquidation_treasury: self.liquidation_treasury,
            slash_treasury: self.slash_treasury,
            liquidated: self.liquidated@,
            idempotency_keys: self.idempotency_keys@,
            upgrade_admin: self.upgrade_admin,
            pending_upgrade_admin: self.pending_upgrade_admin,
            emergency_treasury: self.emergency_treasury,
            drain_eta: self.drain_eta,
            latest_drain_id: self.latest_drain_id,
            drain_records: self.drain_records@,
            claims: self.claims@,
        }
    }
}

/// The entries of a contract that was just deployed, with the defaults of its settings.
pub open spec fn fresh_state(
    thresholds: TierThresholds,
    parameters: Parameters,
    weights: WeightConfig,
) -> State {
    State {
        admin: None,
        paused: false,
        locked: false,
        bond: None,
        accepted_tokens: Seq::empty(),
        token: None,
        early_exit: None,
        weight_config: weights,
        tier_thresholds: thresholds,
        parameters,
        borrow_frozen: false,
        attesters: Map::empty(),
        attester_stakes: Map::empty(),
        attestations: Map::empty(),
        attestation_counter: 0,
        subject_attestations: Map::empty(),
        subject_attestation_counts: Map::empty(),
        dedup_keys: Map::empty(),
        nonces: Map::empty(),
        fees: 0,
        callback: None,
        liquidation_treasury: None,
        slash_treasury: None,
        liquidated: Map::empty(),
        idempotency_keys: Map::empty(),
        upgrade_admin: None,
        pending_upgrade_admin: None,
        emergency_treasury: None,
        drain_eta: None,
        latest_drain_id: 0,
        drain_records: Map::empty(),
        claims: Map::empty(),
    }
}

/// The refusal of a caller who is not the administrator.
pub open spec fn admin_refusal(s: State, caller: Address) -> Option<Revert> {
    match s.admin {
        None => Some(Revert::Contract(ContractError::NotInitialized)),
        Some(a) => refuse_if(a != caller, Revert::Contract(ContractError::NotAdmin)),
    }
}

/// The refusal of a call while the contract is paused.
pub open spec fn pause_refusal(s: State) -> Option<Revert> {
    refuse_if(s.paused, Revert::Paused)
}

/// The refusal of a call that `who` did not authorize.
pub open spec fn auth_refusal(call: Call, who: Address) -> Option<Revert> {
    refuse_if(!call.has_auth(who), Revert::Unauthorized)
}

/// The refusal of a call while the contract is paused, or that `who` did not authorize.
pub open spec fn gate_refusal(s: State, call: Call, who: Address) -> Option<Revert> {
    first_of(pause_refusal(s), auth_refusal(call, who))
}

/// The refusal of a call while the contract is paused, or that the administrator did not make
/// and authorize.
pub open spec fn admin_gate_refusal(s: State, call: Call, who: Address) -> Option<Revert> {
    first_of(gate_refusal(s, call, who), admin_refusal(s, who))
}

/// Why a call that the administrator only has to authorize is refused.
pub open spec fn standing_admin_refusal(s: State, call: Call) -> Option<Revert> {
    first_of(
        pause_refusal(s),
        match s.admin {
            None => Some(Revert::Contract(ContractError::NotInitialized)),
            Some(a) => auth_refusal(call, a),
        },
    )
}

/// The refusal of a call from within a guarded operation.
pub open spec fn lock_refusal(s: State) -> Option<Revert> {
    refuse_if(s.locked, Revert::Contract(ContractError::ReentrancyDetected))
}

/// The refusal where there is no bond.
pub open spec fn bond_refusal(s: State) -> Option<Revert> {
    refuse_if(s.bond is None, Revert::Contract(ContractError::BondNotFound))
}

/// A call takes a contract from one state to another as stated: where it is refused, for the
/// reason given, nothing changes; otherwise the new state, the value and the effects are those
/// given.
pub open spec fn transacts<S, T>(
    before: S,
    after: S,
    r: Result<Outcome<T>, Revert>,
    refusal: Option<Revert>,
    next: S,
    value: T,
    effects: Seq<Effect>,
) -> bool {
    &&& answers(r, refusal)
    &&& match r {
        Ok(o) => after == next && o.value == value && o.effects@ =~= effects,
        Err(_) => after == before,
    }
}

impl CredenceBond {
    /// A contract that was just deployed, with the defaults of its settings.
    pub fn deploy(
        thresholds: TierThresholds,
        parameters: Parameters,
        weights: WeightConfig,
    ) -> (r: CredenceBond)
        ensures
            r@ == fresh_state(thresholds, parameters, weights),
    {
        CredenceBond {
            admin: None,
            paused: false,
            locked: false,
            bond: None,
            accepted_tokens: Vec::new(),
            token: None,
            early_exit: None,
            weight_config: weights,
            tier_thresholds: thresholds,
            parameters,
            borrow_frozen: false,
            attesters: Table::new(),
            attester_stakes: Table::new(),
            attestations: Table::new(),
            attestation_counter: 0,
            subject_attestations: Table::new(),
            subject_attestation_counts: Table::new(),
            dedup_keys: Table::new(),
            nonces: Table::new(),
            fees: 0,
            callback: None,
            liquidation_treasury: None,
            slash_treasury: None,
            liquidated: Table::new(),
            idempotency_keys: Table::new(),
            upgrade_admin: None,
            pending_upgrade_admin: None,
            emergency_treasury: None,
            drain_eta: None,
            latest_drain_id: 0,
            drain_records: Table::new(),
            claims: Table::new(),
        }
    }

    /// Refuses while the contract is paused.
    pub fn require_not_paused(&self) -> (r: Result<(), Revert>)
        ensures
            answers(r, pause_refusal(self@)),
    {
        if self.paused {
            Err(Revert::Paused)
        } else {
            Ok(())
        }
    }

    /// Refuses while the contract is paused, and where `who` did not authorize the call.
    pub(crate) fn require_gate(&self, call: &Call, who: &Address) -> (r: Result<(), Revert>)
        ensures
            answers(r, gate_refusal(self@, *call, *who)),
    {
        self.require_not_paused()?;
        if !call.authorized(who) {
            return Err(Revert::Unauthorized);
        }
        Ok(())
    }

    /// Refuses a caller who is not the administrator.
    pub(crate) fn require_admin(&self, who: &Address) -> (r: Result<(), Revert>)
        ensures
            answers(r, admin_refusal(self@, *who)),
    {
        match self.admin {
            None => Err(Revert::Contract(ContractError::NotInitialized)),
            Some(a) => if a != *who {
                Err(Revert::Contract(ContractError::NotAdmin))
            } else {
                Ok(())
            },
        }
    }

    /// Refuses while the contract is paused, and where the administrator did not make and
    /// authorize the call.
    pub(crate) fn require_admin_gate(&self, call: &Call, who: &Address) -> (r: Result<(), Revert>)
        ensures
            answers(r, admin_gate_refusal(self@, *call, *who)),
    {
        self.require_gate(call, who)?;
        self.require_admin(who)
    }

    /// Refuses while the contract is paused or has no administrator, and where the administrator
    /// did not authorize the call.
    pub(crate) fn require_standing_admin(&self, call: &Call) -> (r: Result<(), Revert>)
        ensures
            answers(r, standing_admin_refusal(self@, *call)),
    {
        self.require_not_paused()?;
        match self.admin {
            None => Err(Revert::Contract(ContractError::NotInitialized)),
            Some(a) => if !call.authorized(&a) {
                Err(Revert::Unauthorized)
            } else {
                Ok(())
            },
        }
    }

    /// The bond.
    pub(crate) fn load_bond(&self) -> (r: Result<IdentityBond, Revert>)
        ensures
            answers(r, bond_refusal(self@)),
            r matches Ok(b) ==> self@.bond == Some(b),
    {
        match self.bond {
            None => Err(Revert::Contract(ContractError::BondNotFound)),
            Some(b) => Ok(b),
        }
    }
}

} // verus!
