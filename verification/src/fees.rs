//! Protocol fees that the contract collects.
use crate::address::Address;
use crate::amount::fits_amount;
use crate::call::Call;
use crate::effect::{first_of, refuse_if, Effect, Hook, Outcome};
use crate::error::{ContractError, Revert};
use crate::lifecycle::{push_callback, with_callback};
use crate::slashing::{noted, repeat_refusal};
use crate::state::{
    admin_refusal, gate_refusal, lock_refusal, pause_refusal, transacts, CredenceBond, State,
};
use crate::types::Operation;
use vstd::prelude::*;

verus! {

/// Why a deposit of fees is refused.
pub open spec fn deposit_refusal(s: State, amount: i128) -> Option<Revert> {
    first_of(
        pause_refusal(s),
        first_of(
            refuse_if(amount <= 0, Revert::AmountNotPositive),
            refuse_if(!fits_amount(s.fees + amount), Revert::ArithmeticOverflow),
        ),
    )
}

/// The state with `amount` more in fees.
pub open spec fn deposit_next(s: State, amount: i128) -> State {
    State { fees: (s.fees + amount) as i128, ..s }
}

/// Why a collection of fees is refused.
pub open spec fn collect_refusal(
    s: State,
    call: Call,
    admin: Address,
    salt: Seq<u8>,
) -> Option<Revert> {
    first_of(
        gate_refusal(s, call, admin),
        first_of(
            repeat_refusal(s, admin, Operation::CollectFees, salt),
            first_of(lock_refusal(s), admin_refusal(s, admin)),
        ),
    )
}

/// The state once the fees are collected.
pub open spec fn collect_next(s: State, admin: Address, salt: Seq<u8>) -> State {
    State { fees: 0, ..noted(s, admin, Operation::CollectFees, salt) }
}

impl CredenceBond {
    /// Deposit fees into the contract.
    ///
    /// No address is named: a deposit books an amount that nobody is charged for here, it can only
    /// add to what the administrator may collect, and so it needs no one's authorization.
    pub fn deposit_fees(&mut self, amount: i128) -> (r: Result<Outcome<()>, Revert>)
        ensures
            transacts(
                old(self)@,
                final(self)@,
                r,
                deposit_refusal(old(self)@, amount),
                deposit_next(old(self)@, amount),
                (),
                seq![],
            ),
    {
        self.require_not_paused()?;
        if amount <= 0 {
            return Err(Revert::AmountNotPositive);
        }
        match self.fees.checked_add(amount) {
            None => Err(Revert::ArithmeticOverflow),
            Some(total) => {
                self.fees = total;
                Ok(Outcome { value: (), effects: vec![] })
            },
        }
    }

    /// [`CredenceBond::collect_fees`] up to its callback, during which the lock is held.
    pub fn collect_fees_begin(
        &mut self,
        call: &Call,
        admin: Address,
        idempotency_salt: &Vec<u8>,
    ) -> (r: Result<Outcome<i128>, Revert>)
        ensures
            transacts(
                old(self)@,
                final(self)@,
                r,
                collect_refusal(old(self)@, *call, admin, idempotency_salt@),
                State { locked: true, ..collect_next(old(self)@, admin, idempotency_salt@) },
                old(self)@.fees,
                with_callback(old(self)@, seq![], Hook::OnCollect, old(self)@.fees),
            ),
    {
        self.require_gate(call, &admin)?;
        self.require_fresh(&admin, Operation::CollectFees, idempotency_salt)?;
        if self.locked {
            return Err(Revert::Contract(ContractError::ReentrancyDetected));
        }
        self.require_admin(&admin)?;
        self.note_submission(&admin, Operation::CollectFees, idempotency_salt);
        self.locked = true;
        let fees: i128 = self.fees;
        self.fees = 0;
        let mut effects: Vec<Effect> = Vec::new();
        push_callback(&mut effects, self.callback, Hook::OnCollect, fees);
        Ok(Outcome { value: fees, effects })
    }

    /// Collect accumulated protocol fees. Only callable by admin.
    pub fn collect_fees(
        &mut self,
        call: &Call,
        admin: Address,
        idempotency_salt: &Vec<u8>,
    ) -> (r: Result<Outcome<i128>, Revert>)
        ensures
            transacts(
                old(self)@,
                final(self)@,
                r,
                collect_refusal(old(self)@, *call, admin, idempotency_salt@),
                collect_next(old(self)@, admin, idempotency_salt@),
                old(self)@.fees,
                with_callback(old(self)@, seq![], Hook::OnCollect, old(self)@.fees),
            ),
    {
        let done = self.collect_fees_begin(call, admin, idempotency_salt)?;
        self.release_lock();
        Ok(done)
    }
}

} // verus!
