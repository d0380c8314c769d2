//! What holds of the contract as a whole, across its entry points.
use crate::address::Address;
use crate::call::Call;
use crate::effect::{Effect, Outcome};
use crate::error::{ContractError, Revert};
use crate::state::State;
use crate::types::{BondTier, TierThresholds};
use vstd::prelude::*;

pub mod access;
pub mod admin_calls;
pub mod attestation_calls;
pub mod attestations;
pub mod bond;
pub mod bond_calls;
pub mod book;
pub mod book_calls;
pub mod fund_calls;
pub mod funds;
pub mod independence;
pub mod parameter_calls;
pub mod slash_calls;
pub mod value_calls;

verus! {

/// Whether `who` is among the signers of a call.
pub open spec fn signed(call: Call, who: Address) -> bool {
    call.signers@.contains(who)
}

/// A refusal with a code.
pub open spec fn coded(e: ContractError) -> Revert {
    Revert::Contract(e)
}

/// Whether a number is in the range of amounts.
pub open spec fn is_amount(x: int) -> bool {
    i128::MIN <= x && x <= i128::MAX
}

/// The extension of the ledger entries' life to a year, once half of it is used up.
pub open spec fn keep_alive() -> Effect {
    Effect::ExtendTtl { threshold: 15_768_000, extend_to: 31_536_000 }
}

/// The self-check of the bond.
pub open spec fn self_check() -> Effect {
    Effect::CheckConsistency { subject: None }
}

/// The tier in which an amount lies: it is at or above the bounds of all tiers below it, and
/// below the bound of its own.
pub open spec fn lies_in(t: TierThresholds, amount: int, tier: BondTier) -> bool {
    match tier {
        BondTier::Bronze => amount < t.bronze_max,
        BondTier::Silver => t.bronze_max <= amount && amount < t.silver_max,
        BondTier::Gold => t.bronze_max <= amount && t.silver_max <= amount && amount < t.gold_max,
        BondTier::Platinum => t.bronze_max <= amount && t.silver_max <= amount && t.gold_max
            <= amount,
    }
}

/// What a call comes to: where it is allowed, the state, the value and the effects given; where it
/// is not, the refusal given, and the state as it was.
pub open spec fn comes_to<S, T>(
    before: S,
    after: S,
    r: Result<Outcome<T>, Revert>,
    allowed: bool,
    why: Revert,
    next: S,
    value: T,
    effects: Seq<Effect>,
) -> bool {
    if allowed {
        &&& r is Ok
        &&& after == next
        &&& r->Ok_0.value == value
        &&& r->Ok_0.effects@ =~= effects
    } else {
        &&& r is Err
        &&& r->Err_0 == why
        &&& after == before
    }
}

/// Whether a call is the administrator's: it is made in that one's name, who signed it, while the
/// contract is not paused.
pub open spec fn by_admin(s: State, call: Call, who: Address) -> bool {
    !s.paused && signed(call, who) && s.admin == Some(who)
}

/// Why a call that is not the administrator's is refused.
pub open spec fn not_by_admin(s: State, call: Call, who: Address) -> Revert {
    if s.paused {
        Revert::Paused
    } else if !signed(call, who) {
        Revert::Unauthorized
    } else if s.admin is None {
        coded(ContractError::NotInitialized)
    } else {
        coded(ContractError::NotAdmin)
    }
}

/// What an effect pays out of the contract.
pub open spec fn payment(effect: Effect) -> int {
    match effect {
        Effect::TransferOut { amount, .. } => amount as int,
        Effect::FeeTransferOut { amount, .. } => amount as int,
        Effect::Sweep { amount, .. } => amount as int,
        _ => 0,
    }
}

/// What a list of effects pays out of the contract.
pub open spec fn paid_out(effects: Seq<Effect>) -> int
    decreases effects.len(),
{
    if effects.len() == 0 {
        0
    } else {
        paid_out(effects.drop_last()) + payment(effects.last())
    }
}

/// What an effect pays out of the contract as a protocol fee.
pub open spec fn fee_payment(effect: Effect) -> int {
    match effect {
        Effect::FeeTransferOut { amount, .. } => amount as int,
        _ => 0,
    }
}

/// What a list of effects pays out of the contract as protocol fees.
pub open spec fn fees_paid(effects: Seq<Effect>) -> int
    decreases effects.len(),
{
    if effects.len() == 0 {
        0
    } else {
        fees_paid(effects.drop_last()) + fee_payment(effects.last())
    }
}

/// One more effect adds what it pays out.
pub(crate) proof fn lemma_paid_out_push(effects: Seq<Effect>, effect: Effect)
    ensures
        paid_out(effects.push(effect)) == paid_out(effects) + payment(effect),
        fees_paid(effects.push(effect)) == fees_paid(effects) + fee_payment(effect),
{
    assert(effects.push(effect).drop_last() =~= effects);
}

} // verus!
