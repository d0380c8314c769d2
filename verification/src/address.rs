//! Account and contract addresses.
use crate::table::Key;
use vstd::prelude::*;

verus! {

/// The kind of ledger object that an address names.
#[derive(Clone, Copy, Debug, PartialEq, Eq, Structural)]
pub enum AddressKind {
    /// An account, named by its public key.
    Account,
    /// A contract, named by the hash of its identifier.
    Contract,
}

/// An address: its kind and its payload of 32 bytes, read as two big-endian halves.
#[derive(Clone, Copy, Debug, PartialEq, Eq, Structural)]
pub struct Address {
    pub kind: AddressKind,
    pub hi: u128,
    pub lo: u128,
}

impl View for Address {
    type V = Address;

    open spec fn view(&self) -> Address {
        *self
    }
}

impl Key for Address {
    fn same(&self, other: &Self) -> bool {
        *self == *other
    }
}

impl Address {
    /// The zero address: an address whose payload is all zeros stands for "unset".
    pub open spec fn spec_is_zero(self) -> bool {
        self.hi == 0 && self.lo == 0
    }

    /// Whether this is the zero address.
    pub fn is_zero(&self) -> (r: bool)
        ensures
            r == self.spec_is_zero(),
    {
        self.hi == 0 && self.lo == 0
    }
}

} // verus!
