//! What an entry point leaves for the host to carry out.
use crate::address::Address;
use crate::error::Revert;
use crate::liquidation_reason::{EXPIRED_UNRENEWED, FULLY_SLASHED};
use crate::types::BondTier;
use vstd::prelude::*;

verus! {

/// Lifetime to which the contract's ledger entries are extended.
pub const STORAGE_TTL_EXTEND_TO: u32 = 31_536_000;

/// Why a bond was liquidated.
#[derive(Clone, Copy, Debug, PartialEq, Eq, Structural)]
pub enum LiquidationReason {
    /// Bond has been fully slashed (`slashed_amount >= bonded_amount`).
    FullySlashed,
    /// Bond lock-up period ended and the bond was not renewed / withdrawn.
    ExpiredUnrenewed,
}

impl LiquidationReason {
    /// The symbol that a liquidation event carries for this reason.
    pub open spec fn spec_symbol(self) -> Seq<char> {
        match self {
            LiquidationReason::FullySlashed => FULLY_SLASHED@,
            LiquidationReason::ExpiredUnrenewed => EXPIRED_UNRENEWED@,
        }
    }

    /// The symbol that a liquidation event carries for this reason.
    pub fn symbol(&self) -> (r: &'static str)
        ensures
            r@ == self.spec_symbol(),
    {
        match self {
            LiquidationReason::FullySlashed => FULLY_SLASHED,
            LiquidationReason::ExpiredUnrenewed => EXPIRED_UNRENEWED,
        }
    }
}

/// The function of a callback contract that is invoked.
#[derive(Clone, Copy, Debug, PartialEq, Eq, Structural)]
pub enum Hook {
    OnWithdraw,
    OnSlash,
    OnCollect,
}

/// An event to publish.
#[derive(Clone, Copy, Debug, PartialEq, Eq, Structural)]
pub enum Event {
    AttesterRegistered { attester: Address },
    AttesterUnregistered { attester: Address },
    /// Published with the payload of the attestation that is on record under `id`.
    AttestationAdded { subject: Address, id: u64, attester: Address },
    /// Published with the list of the `count` attestations that are on record from `first_id` on.
    AttestationsBatchAdded { subject: Address, first_id: u64, count: u32 },
    AttestationRevoked { subject: Address, id: u64, attester: Address },
    AdminTransferred { current_admin: Address, new_admin: Address },
    TierChanged { identity: Address, from: BondTier, to: BondTier },
    WithdrawalRequested { identity: Address, requested_at: u64 },
    BondRenewed { identity: Address, bond_start: u64, bond_duration: u64 },
    EarlyExitPenalty { identity: Address, amount: i128, penalty: i128, treasury: Address },
    LiquidationTreasurySet { treasury: Address },
    SlashTreasurySet { treasury: Address },
    BondLiquidated {
        identity: Address,
        residual: i128,
        reason: LiquidationReason,
        timestamp: u64,
        admin: Address,
    },
    ClaimsExpired { user: Address, count: u32 },
    EmergencyDrain { id: u64, admin: Address, recipient: Address, amount: i128, timestamp: u64 },
    BatchTransfer { admin: Address, count: u32, total: i128 },
    BondCreated {
        identity: Address,
        amount: i128,
        duration: u64,
        is_rolling: bool,
        timestamp: u64,
    },
    BondIncreased { identity: Address, amount: i128, total: i128, timestamp: u64 },
    DurationExtended { identity: Address, duration: u64, timestamp: u64 },
    Withdrawal { identity: Address, amount: i128, remaining: i128, timestamp: u64 },
    BondSlashed { identity: Address, amount: i128, total: i128, timestamp: u64 },
}

/// Work for the host. Effects are carried out in the order in which they are listed; where one
/// fails, the call fails as a whole, except for a sweep.
#[derive(Clone, Copy, Debug, PartialEq, Eq, Structural)]
pub enum Effect {
    /// Publish an event.
    Publish(Event),
    /// Extend the lifetime of the contract's ledger entries to `extend_to` once it falls below
    /// `threshold`.
    ExtendTtl { threshold: u32, extend_to: u32 },
    /// Run the self-check of the ledger entries, for one subject where one is given.
    CheckConsistency { subject: Option<Address> },
    /// Pull bond tokens from `from` into the contract.
    TransferIn { from: Address, amount: i128 },
    /// Pay bond tokens out of the contract to `to`.
    TransferOut { to: Address, amount: i128 },
    /// Pay bond tokens out of the contract to `to`, booked as a protocol fee.
    FeeTransferOut { to: Address, amount: i128 },
    /// Pay bond tokens out to `to` if the token lets it; a failure is ignored.
    Sweep { to: Address, amount: i128 },
    /// Invoke a callback contract.
    Callback { target: Address, hook: Hook, amount: i128 },
    /// Register this contract with a registry.
    Register { registry: Address, contract: Address, admin: Address },
}

/// The result of a call that was not refused.
#[derive(Debug)]
pub struct Outcome<T> {
    /// What the call returns.
    pub value: T,
    /// What the host has to carry out.
    pub effects: Vec<Effect>,
}

/// The effect that keeps the contract's ledger entries alive.
pub open spec fn spec_bump_instance_ttl() -> Effect {
    Effect::ExtendTtl { threshold: 15_768_000, extend_to: 31_536_000 }
}

/// The effect that keeps the contract's ledger entries alive: they are extended to
/// [`STORAGE_TTL_EXTEND_TO`] once half of it is used up.
#[verifier::when_used_as_spec(spec_bump_instance_ttl)]
pub fn bump_instance_ttl() -> (r: Effect)
    ensures
        r == spec_bump_instance_ttl(),
{
    Effect::ExtendTtl { threshold: STORAGE_TTL_EXTEND_TO / 2, extend_to: STORAGE_TTL_EXTEND_TO }
}

/// A list of effects with one more, where a condition holds.
pub open spec fn push_if(effects: Seq<Effect>, condition: bool, effect: Effect) -> Seq<Effect> {
    if condition {
        effects.push(effect)
    } else {
        effects
    }
}

/// The self-check of the bond's entries.
pub open spec fn check_bond() -> Effect {
    Effect::CheckConsistency { subject: None }
}

/// The refusal `why`, where a condition holds.
pub open spec fn refuse_if(condition: bool, why: Revert) -> Option<Revert> {
    if condition {
        Some(why)
    } else {
        None
    }
}

/// The first of two reasons to refuse.
pub open spec fn first_of(a: Option<Revert>, b: Option<Revert>) -> Option<Revert> {
    if a is Some {
        a
    } else {
        b
    }
}

/// The reason to refuse that a verdict gives.
pub open spec fn verdict_refusal<T>(verdict: Result<T, Revert>) -> Option<Revert> {
    match verdict {
        Ok(_) => None,
        Err(e) => Some(e),
    }
}

/// A call answers as stated: it is refused exactly where `refusal` names a reason, with that
/// reason.
pub open spec fn answers<T>(r: Result<T, Revert>, refusal: Option<Revert>) -> bool {
    match r {
        Ok(_) => refusal is None,
        Err(e) => refusal == Some(e),
    }
}

} // verus!
