//! Validated bonds.
use crate::error::ContractError;
use vstd::prelude::*;

verus! {

/// Represents a validated, created bond.
#[derive(Clone, Copy, Debug, PartialEq, Eq, Structural)]
pub struct Bond {
    pub amount: i128,
    pub bond_start: u64,
    pub duration: u64,
    pub is_rolling: bool,
    pub notice_period_duration: u64,
}

impl Bond {
    /// What holds of every bond that is created: a positive amount, a positive duration whose
    /// end fits a timestamp, and, where it rolls, a positive notice period no longer than the
    /// duration.
    pub open spec fn is_well_formed(self) -> bool {
        &&& self.amount > 0
        &&& self.duration > 0
        &&& self.bond_start + self.duration <= u64::MAX
        &&& self.is_rolling ==> 0 < self.notice_period_duration <= self.duration
    }
}

/// Why a bond is not created. The amount is looked at first, then the duration, the notice
/// period and the end.
pub open spec fn creation_error(bond: Bond) -> Option<ContractError> {
    if bond.amount <= 0 {
        Some(ContractError::InvalidBondAmount)
    } else if bond.duration == 0 {
        Some(ContractError::InvalidBondDuration)
    } else if bond.is_rolling && !(0 < bond.notice_period_duration <= bond.duration) {
        Some(ContractError::InvalidNoticePeriod)
    } else if bond.bond_start + bond.duration > u64::MAX {
        Some(ContractError::Overflow)
    } else {
        None
    }
}

/// Returns true when `amount` is a valid bond amount.
pub fn is_valid_bond(amount: i128) -> (r: bool)
    ensures
        r == (amount > 0),
{
    amount > 0
}

/// Creates and returns a validated bond object.
///
/// Returns `Err` for invalid inputs: zero/negative amount, zero duration, an invalid notice
/// period on a rolling bond, or an end that does not fit a timestamp.
pub fn create_bond(
    amount: i128,
    bond_start: u64,
    duration: u64,
    is_rolling: bool,
    notice_period_duration: u64,
) -> (r: Result<Bond, ContractError>)
    ensures
        ({
            let bond = Bond { amount, bond_start, duration, is_rolling, notice_period_duration };
            match r {
                Ok(b) => b == bond && bond.is_well_formed() && creation_error(bond) is None,
                Err(e) => creation_error(bond) == Some(e),
            }
        }),
{
    if !is_valid_bond(amount) {
        return Err(ContractError::InvalidBondAmount);
    }
    if duration == 0 {
        return Err(ContractError::InvalidBondDuration);
    }
    if is_rolling {
        if notice_period_duration == 0 {
            return Err(ContractError::InvalidNoticePeriod);
        }
        if notice_period_duration > duration {
            return Err(ContractError::InvalidNoticePeriod);
        }
    }
    if bond_start.checked_add(duration).is_none() {
        return Err(ContractError::Overflow);
    }
    Ok(Bond { amount, bond_start, duration, is_rolling, notice_period_duration })
}

} // verus!
