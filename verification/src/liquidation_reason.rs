//! The symbols under which a liquidation names its reason.
use vstd::prelude::*;

verus! {

/// Bond has been fully slashed (`slashed_amount >= bonded_amount`).
pub const FULLY_SLASHED: &'static str = "fully_slashed";

/// Bond lock-up period ended and the bond was not renewed / withdrawn.
pub const EXPIRED_UNRENEWED: &'static str = "expired_unrenewed";

} // verus!
