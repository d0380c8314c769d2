//! The emergency drain: the way out for funds after a catastrophic incident.
use crate::address::Address;
use crate::call::Call;
use crate::effect::{answers, first_of, refuse_if, Effect, Event, Outcome};
use crate::error::{ContractError, Revert};
use crate::state::{admin_refusal, auth_refusal, transacts, CredenceBond, State};
use crate::types::DrainRecord;
use vstd::prelude::*;

verus! {

/// Least time, in seconds, between the scheduling of a drain and its execution.
pub const DRAIN_TIMELOCK_SECONDS: u64 = 86_400;

/// The refusal of a caller who is not the administrator, or did not authorize the call.
pub open spec fn drainer_refusal(s: State, call: Call, admin: Address) -> Option<Revert> {
    first_of(auth_refusal(call, admin), admin_refusal(s, admin))
}

/// Why a drain is not scheduled.
pub open spec fn schedule_refusal(
    s: State,
    call: Call,
    admin: Address,
    delay: u64,
) -> Option<Revert> {
    first_of(
        drainer_refusal(s, call, admin),
        first_of(
            refuse_if(
                !s.paused,
                Revert::Contract(ContractError::EmergencyDrainNotPermitted),
            ),
            first_of(
                refuse_if(
                    delay < DRAIN_TIMELOCK_SECONDS,
                    Revert::Contract(ContractError::TimelockNotReady),
                ),
                refuse_if(
                    call.now + delay > u64::MAX,
                    Revert::Contract(ContractError::Overflow),
                ),
            ),
        ),
    )
}

/// Why a drain is not executed.
pub open spec fn drain_refusal(
    s: State,
    call: Call,
    admin: Address,
    amount: i128,
    recipient: Address,
) -> Option<Revert> {
    first_of(
        drainer_refusal(s, call, admin),
        first_of(
            refuse_if(s.emergency_treasury is None, Revert::EmergencyConfigNotSet),
            first_of(
                refuse_if(
                    !s.paused || s.drain_eta is None,
                    Revert::Contract(ContractError::EmergencyDrainNotPermitted),
                ),
                first_of(
                    refuse_if(
                        call.now < s.drain_eta->0,
                        Revert::Contract(ContractError::TimelockNotReady),
                    ),
                    first_of(
                        refuse_if(amount <= 0, Revert::AmountNotPositive),
                        first_of(
                            refuse_if(
                                Some(recipient) != s.emergency_treasury,
                                Revert::Contract(ContractError::TreasuryBeneficiaryMismatch),
                            ),
                            refuse_if(
                                s.latest_drain_id == u64::MAX,
                                Revert::Contract(ContractError::Overflow),
                            ),
                        ),
                    ),
                ),
            ),
        ),
    )
}

/// The record of the next drain.
pub open spec fn next_record(
    s: State,
    call: Call,
    admin: Address,
    amount: i128,
    recipient: Address,
) -> DrainRecord {
    DrainRecord {
        id: (s.latest_drain_id + 1) as u64,
        admin,
        recipient,
        amount,
        timestamp: call.now,
    }
}

/// The state once a drain is on record.
pub open spec fn drain_next(s: State, record: DrainRecord) -> State {
    State {
        latest_drain_id: record.id,
        drain_records: s.drain_records.insert(record.id, record),
        ..s
    }
}

/// The effects of a drain.
pub open spec fn drain_effects(record: DrainRecord) -> Seq<Effect> {
    seq![
        Effect::TransferOut { to: record.recipient, amount: record.amount },
        Effect::Publish(
            Event::EmergencyDrain {
                id: record.id,
                admin: record.admin,
                recipient: record.recipient,
                amount: record.amount,
                timestamp: record.timestamp,
            },
        ),
    ]
}

impl CredenceBond {
    /// Refuses a caller who is not the administrator, or did not authorize the call.
    fn require_drainer(&self, call: &Call, admin: &Address) -> (r: Result<(), Revert>)
        ensures
            answers(r, drainer_refusal(self@, *call, *admin)),
    {
        if !call.authorized(admin) {
            return Err(Revert::Unauthorized);
        }
        self.require_admin(admin)
    }

    /// Schedule an emergency drain of residual funds to the treasury.
    ///
    /// The contract must be paused, and `delay` at least [`DRAIN_TIMELOCK_SECONDS`].
    pub fn schedule_emergency_drain(&mut self, call: &Call, admin: Address, delay: u64) -> (r:
        Result<Outcome<()>, Revert>)
        ensures
            transacts(
                old(self)@,
                final(self)@,
                r,
                schedule_refusal(old(self)@, *call, admin, delay),
                State { drain_eta: Some((call.now + delay) as u64), ..old(self)@ },
                (),
                seq![],
            ),
    {
        self.require_drainer(call, &admin)?;
        if !self.paused {
            return Err(Revert::Contract(ContractError::EmergencyDrainNotPermitted));
        }
        if delay < DRAIN_TIMELOCK_SECONDS {
            return Err(Revert::Contract(ContractError::TimelockNotReady));
        }
        match call.now.checked_add(delay) {
            None => Err(Revert::Contract(ContractError::Overflow)),
            Some(eta) => {
                self.drain_eta = Some(eta);
                Ok(Outcome { value: (), effects: vec![] })
            },
        }
    }

    /// Cancel a pending emergency drain schedule.
    pub fn cancel_emergency_drain(&mut self, call: &Call, admin: Address) -> (r: Result<
        Outcome<()>,
        Revert,
    >)
        ensures
            transacts(
                old(self)@,
                final(self)@,
                r,
                drainer_refusal(old(self)@, *call, admin),
                State { drain_eta: None, ..old(self)@ },
                (),
                seq![],
            ),
    {
        self.require_drainer(call, &admin)?;
        self.drain_eta = None;
        Ok(Outcome { value: (), effects: vec![] })
    }

    /// Execute an emergency drain of `amount` to `recipient`, which must be the treasury.
    ///
    /// Returns the id of the drain's record.
    pub fn emergency_drain_to_treasury(
        &mut self,
        call: &Call,
        admin: Address,
        amount: i128,
        recipient: Address,
    ) -> (r: Result<Outcome<u64>, Revert>)
        ensures
            ({
                let record = next_record(old(self)@, *call, admin, amount, recipient);
                transacts(
                    old(self)@,
                    final(self)@,
                    r,
                    drain_refusal(old(self)@, *call, admin, amount, recipient),
                    drain_next(old(self)@, record),
                    record.id,
                    drain_effects(record),
                )
            }),
    {
        self.require_drainer(call, &admin)?;
        let treasury = match self.emergency_treasury {
            None => return Err(Revert::EmergencyConfigNotSet),
            Some(t) => t,
        };
        if !self.paused {
            return Err(Revert::Contract(ContractError::EmergencyDrainNotPermitted));
        }
        match self.drain_eta {
            None => return Err(Revert::Contract(ContractError::EmergencyDrainNotPermitted)),
            Some(eta) => {
                if call.now < eta {
                    return Err(Revert::Contract(ContractError::TimelockNotReady));
                }
            },
        }
        if amount <= 0 {
            return Err(Revert::AmountNotPositive);
        }
        if recipient != treasury {
            return Err(Revert::Contract(ContractError::TreasuryBeneficiaryMismatch));
        }
        if self.latest_drain_id == u64::MAX {
            return Err(Revert::Contract(ContractError::Overflow));
        }
        let id: u64 = self.latest_drain_id + 1;
        let record = DrainRecord { id, admin, recipient, amount, timestamp: call.now };
        self.drain_records.insert(id, record);
        self.latest_drain_id = id;
        Ok(
            Outcome {
                value: id,
                effects: vec![
                    Effect::TransferOut { to: recipient, amount },
                    Effect::Publish(
                        Event::EmergencyDrain {
                            id,
                            admin,
                            recipient,
                            amount,
                            timestamp: call.now,
                        },
                    ),
                ],
            },
        )
    }

    /// Return the scheduled drain ETA (ledger timestamp), or `None` when not yet scheduled.
    pub fn get_drain_eta(&self) -> (r: Option<u64>)
        ensures
            r == self@.drain_eta,
    {
        self.drain_eta
    }

    /// Return the latest drain record id (0 = no drain executed yet).
    pub fn get_latest_drain_id(&self) -> (r: u64)
        ensures
            r == self@.latest_drain_id,
    {
        self.latest_drain_id
    }

    /// Retrieve a drain audit record by id.
    pub fn get_drain_record(&self, id: u64) -> (r: Result<DrainRecord, Revert>)
        ensures
            answers(
                r,
                refuse_if(!self@.drain_records.contains_key(id), Revert::UnknownDrainRecord),
            ),
            r matches Ok(record) ==> record == self@.drain_records[id],
    {
        match self.drain_records.get(&id) {
            None => Err(Revert::UnknownDrainRecord),
            Some(record) => Ok(*record),
        }
    }
}

} // verus!
