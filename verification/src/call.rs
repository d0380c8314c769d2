//! What an entry point is told of the invocation that it serves.
use crate::address::Address;
use vstd::prelude::*;

verus! {

/// The invocation: when and where it runs, and who authorized it.
#[derive(Clone, Debug)]
pub struct Call {
    /// Ledger timestamp.
    pub now: u64,
    /// Address of this contract.
    pub contract: Address,
    /// Addresses that authorized the invocation.
    pub signers: Vec<Address>,
}

impl Call {
    /// Whether `who` authorized the invocation.
    pub open spec fn has_auth(self, who: Address) -> bool {
        self.signers@.contains(who)
    }

    /// Whether `who` authorized the invocation.
    pub fn authorized(&self, who: &Address) -> (r: bool)
        ensures
            r == self.has_auth(*who),
    {
        let n: usize = self.signers.len();
        let mut i: usize = 0;
        while i < n
            invariant
                i <= n,
                n == self.signers@.len(),
                forall|j: int| 0 <= j < i ==> self.signers@[j] != *who,
            decreases n - i,
        {
            if self.signers[i] == *who {
                return true;
            }
            i += 1;
        }
        false
    }
}

} // verus!
