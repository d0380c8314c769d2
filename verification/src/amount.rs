//! Arithmetic on amounts.
use vstd::prelude::*;

verus! {

/// The amount nearest to an integer.
pub open spec fn clamp_amount(x: int) -> i128 {
    if x > i128::MAX {
        i128::MAX
    } else if x < i128::MIN {
        i128::MIN
    } else {
        x as i128
    }
}

/// Whether an integer is an amount.
pub open spec fn fits_amount(x: int) -> bool {
    i128::MIN <= x <= i128::MAX
}

/// The difference of two amounts, held at the ends of the range.
pub fn saturating_difference(a: i128, b: i128) -> (r: i128)
    ensures
        r == clamp_amount(a - b),
{
    match a.checked_sub(b) {
        Some(d) => d,
        None => if b < 0 {
            i128::MAX
        } else {
            i128::MIN
        },
    }
}

} // verus!
