//! The records that the contract keeps and hands out.
use crate::address::Address;
use crate::bytes::{copy_bytes, same_bytes};
use crate::table::Key;
use vstd::prelude::*;

verus! {

/// Identity tier based on bonded amount.
#[derive(Clone, Copy, Debug, PartialEq, Eq, Structural)]
pub enum BondTier {
    Bronze,
    Silver,
    Gold,
    Platinum,
}

/// The contract's bond.
#[derive(Clone, Copy, Debug, PartialEq, Eq, Structural)]
pub struct IdentityBond {
    pub identity: Address,
    pub bonded_amount: i128,
    pub bond_start: u64,
    pub bond_duration: u64,
    pub slashed_amount: i128,
    pub active: bool,
    pub is_rolling: bool,
    pub withdrawal_requested_at: u64,
    pub notice_period_duration: u64,
}

/// Configurable bonded-amount thresholds that map an amount to a [`BondTier`].
#[derive(Clone, Copy, Debug, PartialEq, Eq, Structural)]
pub struct TierThresholds {
    /// Upper bound (exclusive) for the Bronze tier.
    pub bronze_max: i128,
    /// Upper bound (exclusive) for the Silver tier.
    pub silver_max: i128,
    /// Upper bound (exclusive) for the Gold tier.
    pub gold_max: i128,
}

/// Early-exit penalty configuration.
#[derive(Clone, Copy, Debug, PartialEq, Eq, Structural)]
pub struct EarlyExitConfig {
    /// Recipient of penalties.
    pub treasury: Address,
    /// Penalty rate in basis points (0 to 10 000).
    pub penalty_bps: u32,
}

/// Weighted-attestation configuration.
#[derive(Clone, Copy, Debug, PartialEq, Eq, Structural)]
pub struct WeightConfig {
    /// Weight multiplier in basis points.
    pub multiplier_bps: u32,
    /// Cap on the weight of an attestation, and on the total weight of a batch.
    pub max_weight: u32,
}

/// Protocol parameters under governance.
#[derive(Clone, Copy, Debug, PartialEq, Eq, Structural)]
pub struct Parameters {
    pub protocol_fee_bps: u32,
    pub attestation_fee_bps: u32,
    pub withdrawal_cooldown_secs: u64,
    pub slash_cooldown_secs: u64,
    pub bronze_threshold: i128,
    pub silver_threshold: i128,
    pub gold_threshold: i128,
    pub platinum_threshold: i128,
    pub max_leverage: u32,
}

/// Read-only snapshot of the contract's configuration.
#[derive(Clone, Copy, Debug, PartialEq, Eq, Structural)]
pub struct BondConfigView {
    /// Contract administrator.
    pub admin: Address,
    /// Early-exit penalty treasury recipient, where it is configured.
    pub early_exit_treasury: Option<Address>,
    /// Early-exit penalty rate in basis points (0 to 10 000), where it is configured.
    pub early_exit_penalty_bps: Option<u32>,
    /// Weighted-attestation multiplier in basis points.
    pub weight_multiplier_bps: u32,
    /// Maximum attestation weight cap.
    pub weight_max: u32,
}

/// Read-only snapshot of a single identity's bond state.
#[derive(Clone, Copy, Debug, PartialEq, Eq, Structural)]
pub struct BondStateView {
    /// Bond owner.
    pub identity: Address,
    /// Current bonded amount (before slashing).
    pub bonded_amount: i128,
    /// Cumulative slashed amount.
    pub slashed_amount: i128,
    /// Available (unslashed) balance: `bonded_amount - slashed_amount`.
    pub available_amount: i128,
    /// Ledger timestamp when the bond was created.
    pub bond_start: u64,
    /// Bond duration in seconds.
    pub bond_duration: u64,
    /// Whether the bond is currently active.
    pub active: bool,
    /// Whether the bond auto-renews (rolling).
    pub is_rolling: bool,
    /// Timestamp when withdrawal was requested (0 = not requested).
    pub withdrawal_requested_at: u64,
    /// Notice period duration for rolling bonds in seconds.
    pub notice_period_duration: u64,
    /// Derived tier based on `bonded_amount`.
    pub tier: BondTier,
}

/// One transfer of a batch.
#[derive(Clone, Copy, Debug, PartialEq, Eq, Structural)]
pub struct BatchTransferItem {
    pub recipient: Address,
    pub amount: i128,
}

/// A pull-payment claim that its owner has not collected yet.
#[derive(Clone, Copy, Debug, PartialEq, Eq, Structural)]
pub struct PendingClaim {
    /// Id, increasing in the order in which claims are made.
    pub claim_id: u64,
    /// Amount that may be collected.
    pub amount: i128,
    /// Timestamp after which the claim lapses (0 = never).
    pub expires_at: u64,
}

/// Audit record of an emergency drain.
#[derive(Clone, Copy, Debug, PartialEq, Eq, Structural)]
pub struct DrainRecord {
    pub id: u64,
    pub admin: Address,
    pub recipient: Address,
    pub amount: i128,
    pub timestamp: u64,
}

impl View for DrainRecord {
    type V = DrainRecord;

    open spec fn view(&self) -> DrainRecord {
        *self
    }
}

/// Input item for a batch attestation operation.
#[derive(Clone, Debug)]
pub struct AttestationBatchItem {
    /// Address of the authorized attester (verifier).
    pub attester: Address,
    /// Opaque attestation payload.
    pub attestation_data: Vec<u8>,
    /// Nonce for replay prevention for this attester.
    pub nonce: u64,
}

/// A stored attestation.
#[derive(Clone, Debug)]
pub struct Attestation {
    pub id: u64,
    pub verifier: Address,
    pub identity: Address,
    pub timestamp: u64,
    pub weight: u32,
    pub attestation_data: Vec<u8>,
    pub revoked: bool,
}

/// What an [`Attestation`] says.
pub struct AttestationModel {
    pub id: u64,
    pub verifier: Address,
    pub identity: Address,
    pub timestamp: u64,
    pub weight: u32,
    pub attestation_data: Seq<u8>,
    pub revoked: bool,
}

impl View for Attestation {
    type V = AttestationModel;

    open spec fn view(&self) -> AttestationModel {
        AttestationModel {
            id: self.id,
            verifier: self.verifier,
            identity: self.identity,
            timestamp: self.timestamp,
            weight: self.weight,
            attestation_data: self.attestation_data@,
            revoked: self.revoked,
        }
    }
}

impl AttestationModel {
    /// The triple under which no second live attestation is admitted.
    pub open spec fn dedup_key(self) -> DedupModel {
        DedupModel {
            verifier: self.verifier,
            identity: self.identity,
            attestation_data: self.attestation_data,
        }
    }
}

impl Attestation {
    /// A copy of the attestation.
    pub fn duplicate(&self) -> (r: Attestation)
        ensures
            r@ == self@,
    {
        Attestation {
            id: self.id,
            verifier: self.verifier,
            identity: self.identity,
            timestamp: self.timestamp,
            weight: self.weight,
            attestation_data: copy_bytes(&self.attestation_data),
            revoked: self.revoked,
        }
    }

    /// The triple under which no second live attestation is admitted.
    pub fn dedup_key(&self) -> (r: AttestationDedupKey)
        ensures
            r@ == self@.dedup_key(),
    {
        AttestationDedupKey {
            verifier: self.verifier,
            identity: self.identity,
            attestation_data: copy_bytes(&self.attestation_data),
        }
    }
}

/// The key under which a live attestation is found again.
#[derive(Clone, Debug)]
pub struct AttestationDedupKey {
    pub verifier: Address,
    pub identity: Address,
    pub attestation_data: Vec<u8>,
}

/// What an [`AttestationDedupKey`] says.
pub struct DedupModel {
    pub verifier: Address,
    pub identity: Address,
    pub attestation_data: Seq<u8>,
}

impl View for AttestationDedupKey {
    type V = DedupModel;

    open spec fn view(&self) -> DedupModel {
        DedupModel {
            verifier: self.verifier,
            identity: self.identity,
            attestation_data: self.attestation_data@,
        }
    }
}

impl Key for AttestationDedupKey {
    fn same(&self, other: &Self) -> bool {
        self.verifier == other.verifier && self.identity == other.identity && same_bytes(
            &self.attestation_data,
            &other.attestation_data,
        )
    }
}

/// The operations that may carry an idempotency salt.
#[derive(Clone, Copy, Debug, PartialEq, Eq, Structural)]
pub enum Operation {
    SlashBond,
    CollectFees,
}

/// The submission that an idempotency key stands for.
#[derive(Clone, Debug)]
pub struct IdempotencyKey {
    pub actor: Address,
    pub operation: Operation,
    pub salt: Vec<u8>,
}

/// What an [`IdempotencyKey`] says.
pub struct IdempotencyModel {
    pub actor: Address,
    pub operation: Operation,
    pub salt: Seq<u8>,
}

impl View for IdempotencyKey {
    type V = IdempotencyModel;

    open spec fn view(&self) -> IdempotencyModel {
        IdempotencyModel { actor: self.actor, operation: self.operation, salt: self.salt@ }
    }
}

impl Key for IdempotencyKey {
    fn same(&self, other: &Self) -> bool {
        self.actor == other.actor && self.operation == other.operation && same_bytes(
            &self.salt,
            &other.salt,
        )
    }
}

} // verus!
