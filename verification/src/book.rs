//! A book of bonds, one for each identity.
use crate::address::Address;
use crate::amount::fits_amount;
use crate::bond::{create_bond, creation_error, is_valid_bond, Bond};
use crate::call::Call;
use crate::effect::{answers, first_of, refuse_if, Effect, Event, Outcome};
use crate::error::{ContractError, Revert};
use crate::state::{auth_refusal, transacts};
use crate::table::Table;
use vstd::prelude::*;

verus! {

/// A bond in the book, with what was slashed of it and when its withdrawal was requested.
#[derive(Clone, Copy, Debug, PartialEq, Eq, Structural)]
pub struct HeldBond {
    pub bond: Bond,
    pub slashed_amount: i128,
    /// Timestamp of the request (0 = not requested).
    pub withdrawal_requested_at: u64,
}

impl View for HeldBond {
    type V = HeldBond;

    open spec fn view(&self) -> HeldBond {
        *self
    }
}

/// The book: all of its ledger entries, as plain values.
pub struct BondBook {
    pub admin: Option<Address>,
    pub paused: bool,
    pub locked: bool,
    pub accepted_tokens: Vec<Address>,
    pub bonds: Table<Address, HeldBond>,
}

/// What a [`BondBook`] holds.
#[verifier::ext_equal]
pub struct BookState {
    pub admin: Option<Address>,
    pub paused: bool,
    pub locked: bool,
    pub accepted_tokens: Seq<Address>,
    pub bonds: Map<Address, HeldBond>,
}

impl View for BondBook {
    type V = BookState;

    open spec fn view(&self) -> BookState {
        BookState {
            admin: self.admin,
            paused: self.paused,
            locked: self.locked,
            accepted_tokens: self.accepted_tokens@,
            bonds: self.bonds@,
        }
    }
}

/// The entries of a book that was just opened.
pub open spec fn empty_book() -> BookState {
    BookState {
        admin: None,
        paused: false,
        locked: false,
        accepted_tokens: Seq::empty(),
        bonds: Map::empty(),
    }
}

/// The refusal of a call while the book is paused, or that `who` did not authorize.
pub open spec fn book_gate_refusal(s: BookState, call: Call, who: Address) -> Option<Revert> {
    first_of(refuse_if(s.paused, Revert::Paused), auth_refusal(call, who))
}

/// Why the book is not given an administrator.
pub open spec fn book_initialize_refusal(
    s: BookState,
    call: Call,
    admin: Address,
) -> Option<Revert> {
    first_of(
        refuse_if(s.paused, Revert::Paused),
        first_of(
            refuse_if(
                s.admin is Some,
                Revert::Contract(ContractError::AlreadyInitialized),
            ),
            auth_refusal(call, admin),
        ),
    )
}

/// The refusal of a call that the administrator of the book did not make and authorize. A book
/// without an administrator refuses everyone.
pub open spec fn book_admin_refusal(s: BookState, call: Call, who: Address) -> Option<Revert> {
    first_of(
        book_gate_refusal(s, call, who),
        refuse_if(s.admin != Some(who), Revert::Contract(ContractError::NotAdmin)),
    )
}

/// The refusal where an identity has no bond.
pub open spec fn held_refusal(s: BookState, identity: Address) -> Option<Revert> {
    refuse_if(!s.bonds.contains_key(identity), Revert::Contract(ContractError::BondNotFound))
}

/// The book with an identity's bond replaced.
pub open spec fn with_held(s: BookState, identity: Address, held: HeldBond) -> BookState {
    BookState { bonds: s.bonds.insert(identity, held), ..s }
}

/// The reason to refuse that a contract error gives.
pub open spec fn coded(e: Option<ContractError>) -> Option<Revert> {
    match e {
        None => None,
        Some(e) => Some(Revert::Contract(e)),
    }
}

/// Why a new bond is not taken into the book.
pub open spec fn open_refusal(
    s: BookState,
    call: Call,
    identity: Address,
    bond: Bond,
) -> Option<Revert> {
    first_of(
        book_gate_refusal(s, call, identity),
        first_of(
            refuse_if(
                s.bonds.contains_key(identity),
                Revert::Contract(ContractError::BondAlreadyExists),
            ),
            coded(creation_error(bond)),
        ),
    )
}

/// A bond as it is taken into the book.
pub open spec fn opened(bond: Bond) -> HeldBond {
    HeldBond { bond, slashed_amount: 0, withdrawal_requested_at: 0 }
}

/// Why a bond is not increased.
pub open spec fn increase_refusal(
    s: BookState,
    call: Call,
    identity: Address,
    amount: i128,
) -> Option<Revert> {
    first_of(
        book_gate_refusal(s, call, identity),
        first_of(
            refuse_if(amount <= 0, Revert::Contract(ContractError::InvalidBondAmount)),
            first_of(
                held_refusal(s, identity),
                refuse_if(
                    !fits_amount(s.bonds[identity].bond.amount + amount),
                    Revert::Contract(ContractError::Overflow),
                ),
            ),
        ),
    )
}

/// A bond whose amount differs by `change`.
pub open spec fn adjusted(held: HeldBond, change: int) -> HeldBond {
    HeldBond {
        bond: Bond { amount: (held.bond.amount + change) as i128, ..held.bond },
        ..held
    }
}

/// Why a bond is not prolonged.
pub open spec fn prolong_refusal(
    s: BookState,
    call: Call,
    identity: Address,
    extra_duration: u64,
) -> Option<Revert> {
    first_of(
        book_gate_refusal(s, call, identity),
        first_of(
            held_refusal(s, identity),
            refuse_if(
                s.bonds[identity].bond.duration + extra_duration > u64::MAX,
                Revert::Contract(ContractError::Overflow),
            ),
        ),
    )
}

/// A bond with a longer duration.
pub open spec fn prolonged(held: HeldBond, extra_duration: u64) -> HeldBond {
    HeldBond {
        bond: Bond { duration: (held.bond.duration + extra_duration) as u64, ..held.bond },
        ..held
    }
}

/// Why the notice period of a bond is not started.
pub open spec fn notify_refusal(s: BookState, call: Call, identity: Address) -> Option<Revert> {
    first_of(
        book_gate_refusal(s, call, identity),
        first_of(
            held_refusal(s, identity),
            first_of(
                refuse_if(
                    !s.bonds[identity].bond.is_rolling,
                    Revert::Contract(ContractError::NotRollingBond),
                ),
                refuse_if(
                    s.bonds[identity].withdrawal_requested_at != 0,
                    Revert::Contract(ContractError::WithdrawalAlreadyRequested),
                ),
            ),
        ),
    )
}

/// Why a bond may not be drawn on at a time: the notice period of a rolling bond, or the lock-up
/// of another, has not run out.
pub open spec fn term_refusal(held: HeldBond, now: u64) -> Option<Revert> {
    if held.bond.is_rolling {
        first_of(
            refuse_if(held.withdrawal_requested_at == 0, Revert::NoticeNotStarted),
            first_of(
                refuse_if(
                    held.withdrawal_requested_at + held.bond.notice_period_duration > u64::MAX,
                    Revert::ArithmeticOverflow,
                ),
                refuse_if(
                    now < held.withdrawal_requested_at + held.bond.notice_period_duration,
                    Revert::NoticePeriodNotElapsed,
                ),
            ),
        )
    } else {
        first_of(
            refuse_if(
                held.bond.bond_start + held.bond.duration > u64::MAX,
                Revert::ArithmeticOverflow,
            ),
            refuse_if(
                now < held.bond.bond_start + held.bond.duration,
                Revert::Contract(ContractError::LockupNotExpired),
            ),
        )
    }
}

/// Why `amount` may not be drawn from a bond.
pub open spec fn draw_refusal(held: HeldBond, amount: i128) -> Option<Revert> {
    let left = held.bond.amount - held.slashed_amount;
    first_of(
        refuse_if(!fits_amount(left), Revert::ArithmeticOverflow),
        first_of(
            refuse_if(amount > left, Revert::Contract(ContractError::InsufficientBalance)),
            refuse_if(
                !fits_amount(held.bond.amount - amount),
                Revert::Contract(ContractError::Underflow),
            ),
        ),
    )
}

/// Why a withdrawal from the book is refused.
pub open spec fn take_refusal(
    s: BookState,
    call: Call,
    identity: Address,
    amount: i128,
) -> Option<Revert> {
    first_of(
        book_gate_refusal(s, call, identity),
        first_of(
            refuse_if(s.locked, Revert::Contract(ContractError::ReentrancyDetected)),
            first_of(
                held_refusal(s, identity),
                first_of(
                    term_refusal(s.bonds[identity], call.now),
                    draw_refusal(s.bonds[identity], amount),
                ),
            ),
        ),
    )
}

/// The effects of a withdrawal from the book.
pub open spec fn take_effects(
    s: BookState,
    call: Call,
    identity: Address,
    amount: i128,
) -> Seq<Effect> {
    seq![
        Effect::TransferOut { to: identity, amount },
        Effect::Publish(
            Event::Withdrawal {
                identity,
                amount,
                remaining: adjusted(s.bonds[identity], -amount).bond.amount,
                timestamp: call.now,
            },
        ),
    ]
}

/// Why a bond in the book is not slashed.
pub open spec fn cut_refusal(
    s: BookState,
    call: Call,
    admin: Address,
    identity: Address,
    amount: i128,
) -> Option<Revert> {
    first_of(
        book_admin_refusal(s, call, admin),
        first_of(
            held_refusal(s, identity),
            refuse_if(
                !fits_amount(s.bonds[identity].slashed_amount + amount),
                Revert::Contract(ContractError::Overflow),
            ),
        ),
    )
}

/// A bond with `amount` more slashed, up to its whole amount.
pub open spec fn cut(held: HeldBond, amount: i128) -> HeldBond {
    HeldBond {
        slashed_amount: if held.slashed_amount + amount > held.bond.amount {
            held.bond.amount
        } else {
            (held.slashed_amount + amount) as i128
        },
        ..held
    }
}

/// Validates the terms of a new bond and creates it, to start at `now`.
pub fn validate_and_create_bond_struct(
    now: u64,
    amount: i128,
    duration: u64,
    is_rolling: bool,
    notice_period_duration: u64,
) -> (r: Result<Bond, ContractError>)
    ensures
        ({
            let bond = Bond {
                amount,
                bond_start: now,
                duration,
                is_rolling,
                notice_period_duration,
            };
            match r {
                Ok(b) => b == bond && bond.is_well_formed() && creation_error(bond) is None,
                Err(e) => creation_error(bond) == Some(e),
            }
        }),
{
    if !is_valid_bond(amount) {
        return Err(ContractError::InvalidBondAmount);
    }
    if duration == 0 {
        return Err(ContractError::InvalidBondDuration);
    }
    if is_rolling && (notice_period_duration == 0 || notice_period_duration > duration) {
        return Err(ContractError::InvalidNoticePeriod);
    }
    if now.checked_add(duration).is_none() {
        return Err(ContractError::Overflow);
    }
    create_bond(amount, now, duration, is_rolling, notice_period_duration)
}

/// Refuses a withdrawal from a bond whose notice period or lock-up has not run out.
fn require_term(held: &HeldBond, now: u64) -> (r: Result<(), Revert>)
    ensures
        answers(r, term_refusal(*held, now)),
{
    if held.bond.is_rolling {
        if held.withdrawal_requested_at == 0 {
            return Err(Revert::NoticeNotStarted);
        }
        match held.withdrawal_requested_at.checked_add(held.bond.notice_period_duration) {
            None => return Err(Revert::ArithmeticOverflow),
            Some(earliest) => {
                if now < earliest {
                    return Err(Revert::NoticePeriodNotElapsed);
                }
            },
        }
    } else {
        match held.bond.bond_start.checked_add(held.bond.duration) {
            None => return Err(Revert::ArithmeticOverflow),
            Some(end) => {
                if now < end {
                    return Err(Revert::Contract(ContractError::LockupNotExpired));
                }
            },
        }
    }
    Ok(())
}

impl BondBook {
    /// An empty book.
    pub fn new() -> (r: BondBook)
        ensures
            r@ == empty_book(),
    {
        BondBook {
            admin: None,
            paused: false,
            locked: false,
            accepted_tokens: Vec::new(),
            bonds: Table::new(),
        }
    }

    /// Refuses while the book is paused.
    pub fn require_not_paused(&self) -> (r: Result<(), Revert>)
        ensures
            answers(r, refuse_if(self@.paused, Revert::Paused)),
    {
        if self.paused {
            Err(Revert::Paused)
        } else {
            Ok(())
        }
    }

    /// Refuses while the book is paused, and where `who` did not authorize the call.
    fn require_gate(&self, call: &Call, who: &Address) -> (r: Result<(), Revert>)
        ensures
            answers(r, book_gate_refusal(self@, *call, *who)),
    {
        self.require_not_paused()?;
        if !call.authorized(who) {
            return Err(Revert::Unauthorized);
        }
        Ok(())
    }

    /// Refuses while the book is paused, and where its administrator did not make and authorize
    /// the call.
    fn require_admin(&self, call: &Call, who: &Address) -> (r: Result<(), Revert>)
        ensures
            answers(r, book_admin_refusal(self@, *call, *who)),
    {
        self.require_gate(call, who)?;
        match self.admin {
            Some(a) => if a == *who {
                Ok(())
            } else {
                Err(Revert::Contract(ContractError::NotAdmin))
            },
            None => Err(Revert::Contract(ContractError::NotAdmin)),
        }
    }

    /// The bond of an identity.
    pub fn get_bond(&self, identity: &Address) -> (r: Result<HeldBond, Revert>)
        ensures
            answers(r, held_refusal(self@, *identity)),
            r matches Ok(held) ==> held == self@.bonds[*identity],
    {
        match self.bonds.get(identity) {
            None => Err(Revert::Contract(ContractError::BondNotFound)),
            Some(held) => Ok(*held),
        }
    }

    /// Names the administrator of the book.
    ///
    /// Authority: `admin` must authorize the call.
    pub fn initialize(&mut self, call: &Call, admin: Address) -> (r: Result<Outcome<()>, Revert>)
        ensures
            transacts(
                old(self)@,
                final(self)@,
                r,
                book_initialize_refusal(old(self)@, *call, admin),
                BookState { admin: Some(admin), ..old(self)@ },
                (),
                seq![],
            ),
    {
        self.require_not_paused()?;
        if self.admin.is_some() {
            return Err(Revert::Contract(ContractError::AlreadyInitialized));
        }
        if !call.authorized(&admin) {
            return Err(Revert::Unauthorized);
        }
        self.admin = Some(admin);
        Ok(Outcome { value: (), effects: vec![] })
    }

    /// Set the set of accepted token addresses. Only callable by admin.
    pub fn set_accepted_tokens(
        &mut self,
        call: &Call,
        admin: Address,
        accepted_tokens: Vec<Address>,
    ) -> (r: Result<Outcome<()>, Revert>)
        ensures
            transacts(
                old(self)@,
                final(self)@,
                r,
                first_of(
                    book_admin_refusal(old(self)@, *call, admin),
                    refuse_if(accepted_tokens@.len() == 0, Revert::EmptyTokenList),
                ),
                BookState { accepted_tokens: accepted_tokens@, ..old(self)@ },
                (),
                seq![],
            ),
    {
        self.require_admin(call, &admin)?;
        if accepted_tokens.len() == 0 {
            return Err(Revert::EmptyTokenList);
        }
        self.accepted_tokens = accepted_tokens;
        Ok(Outcome { value: (), effects: vec![] })
    }

    /// Creates and persists a new bond for an identity.
    pub fn create_bond(
        &mut self,
        call: &Call,
        identity: Address,
        amount: i128,
        duration: u64,
        is_rolling: bool,
        notice_period_duration: u64,
    ) -> (r: Result<Outcome<Bond>, Revert>)
        ensures
            ({
                let bond = Bond {
                    amount,
                    bond_start: call.now,
                    duration,
                    is_rolling,
                    notice_period_duration,
                };
                transacts(
                    old(self)@,
                    final(self)@,
                    r,
                    open_refusal(old(self)@, *call, identity, bond),
                    with_held(old(self)@, identity, opened(bond)),
                    bond,
                    seq![
                        Effect::TransferIn { from: identity, amount },
                        Effect::Publish(
                            Event::BondCreated {
                                identity,
                                amount,
                                duration,
                                is_rolling,
                                timestamp: call.now,
                            },
                        ),
                    ],
                )
            }),
    {
        self.require_gate(call, &identity)?;
        if self.bonds.contains(&identity) {
            return Err(Revert::Contract(ContractError::BondAlreadyExists));
        }
        let bond = match validate_and_create_bond_struct(
            call.now,
            amount,
            duration,
            is_rolling,
            notice_period_duration,
        ) {
            Err(e) => return Err(Revert::Contract(e)),
            Ok(b) => b,
        };
        self.bonds.insert(
            identity,
            HeldBond { bond, slashed_amount: 0, withdrawal_requested_at: 0 },
        );
        Ok(
            Outcome {
                value: bond,
                effects: vec![
                    Effect::TransferIn { from: identity, amount },
                    Effect::Publish(
                        Event::BondCreated {
                            identity,
                            amount,
                            duration,
                            is_rolling,
                            timestamp: call.now,
                        },
                    ),
                ],
            },
        )
    }

    /// Increases the bonded amount for an existing bond.
    pub fn top_up(&mut self, call: &Call, identity: Address, amount: i128) -> (r: Result<
        Outcome<()>,
        Revert,
    >)
        ensures
            ({
                let held = adjusted(old(self)@.bonds[identity], amount as int);
                transacts(
                    old(self)@,
                    final(self)@,
                    r,
                    increase_refusal(old(self)@, *call, identity, amount),
                    with_held(old(self)@, identity, held),
                    (),
                    seq![
                        Effect::TransferIn { from: identity, amount },
                        Effect::Publish(
                            Event::BondIncreased {
                                identity,
                                amount,
                                total: held.bond.amount,
                                timestamp: call.now,
                            },
                        ),
                    ],
                )
            }),
    {
        self.require_gate(call, &identity)?;
        if !is_valid_bond(amount) {
            return Err(Revert::Contract(ContractError::InvalidBondAmount));
        }
        let mut held = self.get_bond(&identity)?;
        let total: i128 = match held.bond.amount.checked_add(amount) {
            None => return Err(Revert::Contract(ContractError::Overflow)),
            Some(t) => t,
        };
        held.bond.amount = total;
        self.bonds.insert(identity, held);
        Ok(
            Outcome {
                value: (),
                effects: vec![
                    Effect::TransferIn { from: identity, amount },
                    Effect::Publish(
                        Event::BondIncreased { identity, amount, total, timestamp: call.now },
                    ),
                ],
            },
        )
    }

    /// Extends the duration of an existing bond.
    pub fn extend_duration(&mut self, call: &Call, identity: Address, extra_duration: u64) -> (r:
        Result<Outcome<()>, Revert>)
        ensures
            ({
                let held = prolonged(old(self)@.bonds[identity], extra_duration);
                transacts(
                    old(self)@,
                    final(self)@,
                    r,
                    prolong_refusal(old(self)@, *call, identity, extra_duration),
                    with_held(old(self)@, identity, held),
                    (),
                    seq![
                        Effect::Publish(
                            Event::DurationExtended {
                                identity,
                                duration: held.bond.duration,
                                timestamp: call.now,
                            },
                        ),
                    ],
                )
            }),
    {
        self.require_gate(call, &identity)?;
        let mut held = self.get_bond(&identity)?;
        let duration: u64 = match held.bond.duration.checked_add(extra_duration) {
            None => return Err(Revert::Contract(ContractError::Overflow)),
            Some(d) => d,
        };
        held.bond.duration = duration;
        self.bonds.insert(identity, held);
        Ok(
            Outcome {
                value: (),
                effects: vec![
                    Effect::Publish(
                        Event::DurationExtended { identity, duration, timestamp: call.now },
                    ),
                ],
            },
        )
    }

    /// Starts the notice period of a rolling bond.
    pub fn request_withdrawal(&mut self, call: &Call, identity: Address) -> (r: Result<
        Outcome<()>,
        Revert,
    >)
        ensures
            transacts(
                old(self)@,
                final(self)@,
                r,
                notify_refusal(old(self)@, *call, identity),
                with_held(
                    old(self)@,
                    identity,
                    HeldBond {
                        withdrawal_requested_at: call.now,
                        ..old(self)@.bonds[identity]
                    },
                ),
                (),
                seq![],
            ),
    {
        self.require_gate(call, &identity)?;
        let mut held = self.get_bond(&identity)?;
        if !held.bond.is_rolling {
            return Err(Revert::Contract(ContractError::NotRollingBond));
        }
        if held.withdrawal_requested_at != 0 {
            return Err(Revert::Contract(ContractError::WithdrawalAlreadyRequested));
        }
        held.withdrawal_requested_at = call.now;
        self.bonds.insert(identity, held);
        Ok(Outcome { value: (), effects: vec![] })
    }

    /// [`BondBook::withdraw`] up to its transfer, during which the lock is held.
    pub fn withdraw_begin(&mut self, call: &Call, identity: Address, amount: i128) -> (r: Result<
        Outcome<()>,
        Revert,
    >)
        ensures
            transacts(
                old(self)@,
                final(self)@,
                r,
                take_refusal(old(self)@, *call, identity, amount),
                BookState {
                    locked: true,
                    ..with_held(
                        old(self)@,
                        identity,
                        adjusted(old(self)@.bonds[identity], -amount),
                    )
                },
                (),
                take_effects(old(self)@, *call, identity, amount),
            ),
    {
        self.require_gate(call, &identity)?;
        if self.locked {
            return Err(Revert::Contract(ContractError::ReentrancyDetected));
        }
        let mut held = self.get_bond(&identity)?;
        require_term(&held, call.now)?;
        match held.bond.amount.checked_sub(held.slashed_amount) {
            None => return Err(Revert::ArithmeticOverflow),
            Some(left) => {
                if amount > left {
                    return Err(Revert::Contract(ContractError::InsufficientBalance));
                }
            },
        }
        let remaining: i128 = match held.bond.amount.checked_sub(amount) {
            None => return Err(Revert::Contract(ContractError::Underflow)),
            Some(m) => m,
        };
        self.locked = true;
        held.bond.amount = remaining;
        self.bonds.insert(identity, held);
        Ok(
            Outcome {
                value: (),
                effects: vec![
                    Effect::TransferOut { to: identity, amount },
                    Effect::Publish(
                        Event::Withdrawal { identity, amount, remaining, timestamp: call.now },
                    ),
                ],
            },
        )
    }

    /// Withdraws from an identity's bond, once its notice period or lock-up has run out.
    pub fn withdraw(&mut self, call: &Call, identity: Address, amount: i128) -> (r: Result<
        Outcome<()>,
        Revert,
    >)
        ensures
            transacts(
                old(self)@,
                final(self)@,
                r,
                take_refusal(old(self)@, *call, identity, amount),
                with_held(
                    old(self)@,
                    identity,
                    adjusted(old(self)@.bonds[identity], -amount),
                ),
                (),
                take_effects(old(self)@, *call, identity, amount),
            ),
    {
        let done = self.withdraw_begin(call, identity, amount)?;
        self.locked = false;
        Ok(done)
    }

    /// Slashes an identity's bond. The cumulative slash stops at the bonded amount.
    pub fn slash(&mut self, call: &Call, admin: Address, identity: Address, amount: i128) -> (r:
        Result<Outcome<()>, Revert>)
        ensures
            ({
                let held = cut(old(self)@.bonds[identity], amount);
                transacts(
                    old(self)@,
                    final(self)@,
                    r,
                    cut_refusal(old(self)@, *call, admin, identity, amount),
                    with_held(old(self)@, identity, held),
                    (),
                    seq![
                        Effect::Publish(
                            Event::BondSlashed {
                                identity,
                                amount,
                                total: held.slashed_amount,
                                timestamp: call.now,
                            },
                        ),
                    ],
                )
            }),
    {
        self.require_admin(call, &admin)?;
        let mut held = self.get_bond(&identity)?;
        let sum: i128 = match held.slashed_amount.checked_add(amount) {
            None => return Err(Revert::Contract(ContractError::Overflow)),
            Some(n) => n,
        };
        let total: i128 = if sum > held.bond.amount {
            held.bond.amount
        } else {
            sum
        };
        held.slashed_amount = total;
        self.bonds.insert(identity, held);
        Ok(
            Outcome {
                value: (),
                effects: vec![
                    Effect::Publish(
                        Event::BondSlashed { identity, amount, total, timestamp: call.now },
                    ),
                ],
            },
        )
    }
}

} // verus!
