//! Rules of the Credence identity bond: a stake that an identity locks up, that an
//! administrator may slash, and on which attesters record weighted attestations.
//!
//! The crate is a state machine. [`CredenceBond`] holds the contract's ledger entries as plain
//! values, and each entry point is a function from that state, a [`Call`] and its arguments to a
//! new state and the [`Effect`]s that the host still has to carry out.
pub mod address;
pub mod admin;
pub mod amount;
pub mod attestation;
pub mod bond;
pub mod book;
pub mod bytes;
pub mod call;
pub mod claims;
pub mod effect;
pub mod emergency;
pub mod error;
pub mod fees;
pub mod laws;
pub mod lifecycle;
pub mod liquidation_reason;
pub mod parameters;
pub mod slashing;
pub mod state;
pub mod table;
pub mod tier;
pub mod transfer;
pub mod types;

pub use address::{Address, AddressKind};
pub use bond::{create_bond, is_valid_bond, Bond};
pub use book::{BondBook, HeldBond};
pub use call::Call;
pub use effect::{Effect, Event, Hook, LiquidationReason, Outcome};
pub use error::{ContractError, Revert, Verdict};
pub use state::CredenceBond;
pub use types::{
    Attestation, AttestationBatchItem, BatchTransferItem, BondConfigView, BondStateView, BondTier,
    IdentityBond, TierThresholds,
};
