//! Bond tiers.
use crate::address::Address;
use crate::effect::{push_if, Effect, Event};
use crate::state::CredenceBond;
use crate::types::{BondTier, TierThresholds};
use vstd::prelude::*;

verus! {

/// The tier of an amount: the first one whose upper bound lies above it, or Platinum.
pub open spec fn tier_of(t: TierThresholds, amount: int) -> BondTier {
    if amount < t.bronze_max {
        BondTier::Bronze
    } else if amount < t.silver_max {
        BondTier::Silver
    } else if amount < t.gold_max {
        BondTier::Gold
    } else {
        BondTier::Platinum
    }
}

/// The rank of a tier.
pub open spec fn rank(tier: BondTier) -> int {
    match tier {
        BondTier::Bronze => 0,
        BondTier::Silver => 1,
        BondTier::Gold => 2,
        BondTier::Platinum => 3,
    }
}

/// A list of effects with the event of a change of tier, where the tier changes.
pub open spec fn with_tier_change(
    effects: Seq<Effect>,
    identity: Address,
    from: BondTier,
    to: BondTier,
) -> Seq<Effect> {
    push_if(effects, from != to, Effect::Publish(Event::TierChanged { identity, from, to }))
}

impl CredenceBond {
    /// The tier of an amount.
    pub(crate) fn get_tier_for_amount(&self, amount: i128) -> (r: BondTier)
        ensures
            r == tier_of(self@.tier_thresholds, amount as int),
    {
        if amount < self.tier_thresholds.bronze_max {
            BondTier::Bronze
        } else if amount < self.tier_thresholds.silver_max {
            BondTier::Silver
        } else if amount < self.tier_thresholds.gold_max {
            BondTier::Gold
        } else {
            BondTier::Platinum
        }
    }
}

/// Adds the event of a change of tier to a list of effects, where the tier changes.
pub(crate) fn emit_tier_change_if_needed(
    effects: &mut Vec<Effect>,
    identity: Address,
    from: BondTier,
    to: BondTier,
)
    ensures
        final(effects)@ == with_tier_change(old(effects)@, identity, from, to),
{
    if from != to {
        effects.push(Effect::Publish(Event::TierChanged { identity, from, to }));
    }
}

} // verus!
