//! What each call on the book of bonds does, told of what it is handed and what it gives.
use crate::address::Address;
use crate::bond::{create_bond, is_valid_bond, Bond};
use crate::book::{validate_and_create_bond_struct, BondBook, BookState, HeldBond};
use crate::call::Call;
use crate::effect::{Effect, Event, Outcome};
use crate::error::{ContractError, Revert};
use crate::laws::{coded, comes_to, is_amount, signed};
use vstd::prelude::*;

verus! {

/// The terms on which a bond is made: a positive amount and duration, an end that fits a
/// timestamp, and, where it rolls, a positive notice period within the duration.
pub open spec fn good_terms(
    amount: i128,
    start: u64,
    duration: u64,
    is_rolling: bool,
    notice: u64,
) -> bool {
    &&& amount > 0
    &&& duration > 0
    &&& is_rolling ==> 0 < notice && notice <= duration
    &&& start + duration <= u64::MAX
}

/// What is wrong with the terms of a bond, the amount before the duration, the notice and the end.
pub open spec fn bad_terms(
    amount: i128,
    duration: u64,
    is_rolling: bool,
    notice: u64,
) -> ContractError {
    if amount <= 0 {
        ContractError::InvalidBondAmount
    } else if duration == 0 {
        ContractError::InvalidBondDuration
    } else if is_rolling && (notice == 0 || notice > duration) {
        ContractError::InvalidNoticePeriod
    } else {
        ContractError::Overflow
    }
}

/// A bond is made exactly on good terms, and then on just those; a valid amount is a positive one.
pub proof fn law_bonds_are_made_on_good_terms(
    amount: i128,
    start: u64,
    duration: u64,
    is_rolling: bool,
    notice: u64,
    valid: bool,
    r: Result<Bond, ContractError>,
    q: Result<Bond, ContractError>,
)
    requires
        call_ensures(is_valid_bond, (amount,), valid),
        call_ensures(create_bond, (amount, start, duration, is_rolling, notice), r),
        call_ensures(
            validate_and_create_bond_struct,
            (start, amount, duration, is_rolling, notice),
            q,
        ),
    ensures
        valid <==> amount > 0,
        r is Ok <==> good_terms(amount, start, duration, is_rolling, notice),
        r is Ok ==> r->Ok_0 == (Bond {
            amount,
            bond_start: start,
            duration,
            is_rolling,
            notice_period_duration: notice,
        }),
        r is Err ==> r->Err_0 == bad_terms(amount, duration, is_rolling, notice),
        q == r,
{
}

/// A book is seen as it is, a new one is blank, and its readers read it as it is held.
pub proof fn law_book_is_read_as_held(
    blank: BondBook,
    b: BondBook,
    identity: Address,
    pause_check: Result<(), Revert>,
    held: Result<HeldBond, Revert>,
)
    requires
        call_ensures(BondBook::new, (), blank),
        call_ensures(BondBook::require_not_paused, (&b,), pause_check),
        call_ensures(BondBook::get_bond, (&b, &identity), held),
    ensures
        b@.admin == b.admin && b@.paused == b.paused && b@.locked == b.locked,
        b@.accepted_tokens == b.accepted_tokens@ && b@.bonds == b.bonds@,
        blank.admin is None && !blank.paused && !blank.locked,
        blank.accepted_tokens@.len() == 0,
        !blank.bonds@.contains_key(identity),
        pause_check is Ok <==> !b.paused,
        pause_check is Err ==> pause_check->Err_0 == Revert::Paused,
        held is Ok <==> b.bonds@.contains_key(identity),
        held is Ok ==> held->Ok_0 == b.bonds@[identity],
        held is Err ==> held->Err_0 == coded(ContractError::BondNotFound),
{
}

/// Set-up names the administrator of the book, who has to sign, where there is none yet; and the
/// administrator sets the accepted tokens, to any list that is not empty.
pub proof fn law_book_is_set_up(
    b: &mut BondBook,
    d: &mut BondBook,
    call: Call,
    admin: Address,
    tokens: Vec<Address>,
    r: Result<Outcome<()>, Revert>,
    q: Result<Outcome<()>, Revert>,
)
    requires
        call_ensures(BondBook::initialize, (b, &call, admin), r),
        call_ensures(BondBook::set_accepted_tokens, (d, &call, admin, tokens), q),
    ensures
        comes_to(
            old(b)@,
            final(b)@,
            r,
            !old(b)@.paused && old(b)@.admin is None && signed(call, admin),
            if old(b)@.paused {
                Revert::Paused
            } else if old(b)@.admin is Some {
                coded(ContractError::AlreadyInitialized)
            } else {
                Revert::Unauthorized
            },
            BookState { admin: Some(admin), ..old(b)@ },
            (),
            seq![],
        ),
        comes_to(
            old(d)@,
            final(d)@,
            q,
            !old(d)@.paused && signed(call, admin) && old(d)@.admin == Some(admin) && tokens@.len()
                > 0,
            if old(d)@.paused {
                Revert::Paused
            } else if !signed(call, admin) {
                Revert::Unauthorized
            } else if old(d)@.admin != Some(admin) {
                coded(ContractError::NotAdmin)
            } else {
                Revert::EmptyTokenList
            },
            BookState { accepted_tokens: tokens@, ..old(d)@ },
            (),
            seq![],
        ),
{
}

/// Why a call in an identity's name does not get to its bond.
pub open spec fn barred(s: BookState, call: Call, identity: Address) -> Revert {
    if s.paused {
        Revert::Paused
    } else if !signed(call, identity) {
        Revert::Unauthorized
    } else {
        coded(ContractError::BondNotFound)
    }
}

/// An identity that signs and has no bond gets one on good terms, starting now, against the
/// amount.
pub proof fn law_book_opens_a_bond(
    b: &mut BondBook,
    call: Call,
    identity: Address,
    amount: i128,
    duration: u64,
    is_rolling: bool,
    notice: u64,
    r: Result<Outcome<Bond>, Revert>,
)
    requires
        call_ensures(
            BondBook::create_bond,
            (b, &call, identity, amount, duration, is_rolling, notice),
            r,
        ),
    ensures
        ({
            let s = old(b)@;
            let bond = Bond {
                amount,
                bond_start: call.now,
                duration,
                is_rolling,
                notice_period_duration: notice,
            };
            comes_to(
                s,
                final(b)@,
                r,
                !s.paused && signed(call, identity) && !s.bonds.contains_key(identity)
                    && good_terms(amount, call.now, duration, is_rolling, notice),
                if s.paused {
                    Revert::Paused
                } else if !signed(call, identity) {
                    Revert::Unauthorized
                } else if s.bonds.contains_key(identity) {
                    coded(ContractError::BondAlreadyExists)
                } else {
                    coded(bad_terms(amount, duration, is_rolling, notice))
                },
                BookState {
                    bonds: s.bonds.insert(
                        identity,
                        HeldBond { bond, slashed_amount: 0, withdrawal_requested_at: 0 },
                    ),
                    ..s
                },
                bond,
                seq![
                    Effect::TransferIn { from: identity, amount },
                    Effect::Publish(
                        Event::BondCreated {
                            identity,
                            amount,
                            duration,
                            is_rolling,
                            timestamp: call.now,
                        },
                    ),
                ],
            )
        }),
{
}

/// An increase adds a positive amount to an identity's bond, against that amount, where the sum
/// is an amount, and changes nothing else.
pub proof fn law_book_adds_to_a_bond(
    b: &mut BondBook,
    call: Call,
    identity: Address,
    amount: i128,
    r: Result<Outcome<()>, Revert>,
)
    requires
        call_ensures(BondBook::top_up, (b, &call, identity, amount), r),
    ensures
        ({
            let s = old(b)@;
            let h = s.bonds[identity];
            let total = (h.bond.amount + amount) as i128;
            comes_to(
                s,
                final(b)@,
                r,
                !s.paused && signed(call, identity) && amount > 0 && s.bonds.contains_key(identity)
                    && h.bond.amount + amount <= i128::MAX,
                if s.paused {
                    Revert::Paused
                } else if !signed(call, identity) {
                    Revert::Unauthorized
                } else if amount <= 0 {
                    coded(ContractError::InvalidBondAmount)
                } else if !s.bonds.contains_key(identity) {
                    coded(ContractError::BondNotFound)
                } else {
                    coded(ContractError::Overflow)
                },
                BookState {
                    bonds: s.bonds.insert(
                        identity,
                        HeldBond { bond: Bond { amount: total, ..h.bond }, ..h },
                    ),
                    ..s
                },
                (),
                seq![
                    Effect::TransferIn { from: identity, amount },
                    Effect::Publish(
                        Event::BondIncreased { identity, amount, total, timestamp: call.now },
                    ),
                ],
            )
        }),
{
}

/// A prolongation adds to the duration of an identity's bond and changes nothing else.
pub proof fn law_book_prolongs_a_bond(
    b: &mut BondBook,
    call: Call,
    identity: Address,
    extra: u64,
    r: Result<Outcome<()>, Revert>,
)
    requires
        call_ensures(BondBook::extend_duration, (b, &call, identity, extra), r),
    ensures
        ({
            let s = old(b)@;
            let h = s.bonds[identity];
            let duration = (h.bond.duration + extra) as u64;
            comes_to(
                s,
                final(b)@,
                r,
                !s.paused && signed(call, identity) && s.bonds.contains_key(identity)
                    && h.bond.duration + extra <= u64::MAX,
                if s.paused || !signed(call, identity) || !s.bonds.contains_key(identity) {
                    barred(s, call, identity)
                } else {
                    coded(ContractError::Overflow)
                },
                BookState {
                    bonds: s.bonds.insert(
                        identity,
                        HeldBond { bond: Bond { duration, ..h.bond }, ..h },
                    ),
                    ..s
                },
                (),
                seq![
                    Effect::Publish(
                        Event::DurationExtended { identity, duration, timestamp: call.now },
                    ),
                ],
            )
        }),
{
}

/// A request marks an identity's rolling bond with the time, once, and changes nothing else.
pub proof fn law_book_marks_a_request(
    b: &mut BondBook,
    call: Call,
    identity: Address,
    r: Result<Outcome<()>, Revert>,
)
    requires
        call_ensures(BondBook::request_withdrawal, (b, &call, identity), r),
    ensures
        ({
            let s = old(b)@;
            let h = s.bonds[identity];
            comes_to(
                s,
                final(b)@,
                r,
                !s.paused && signed(call, identity) && s.bonds.contains_key(identity)
                    && h.bond.is_rolling && h.withdrawal_requested_at == 0,
                if s.paused || !signed(call, identity) || !s.bonds.contains_key(identity) {
                    barred(s, call, identity)
                } else if !h.bond.is_rolling {
                    coded(ContractError::NotRollingBond)
                } else {
                    coded(ContractError::WithdrawalAlreadyRequested)
                },
                BookState {
                    bonds: s.bonds.insert(
                        identity,
                        HeldBond { withdrawal_requested_at: call.now, ..h },
                    ),
                    ..s
                },
                (),
                seq![],
            )
        }),
{
}

/// Whether a bond of the book is open at a time.
pub open spec fn is_open(h: HeldBond, now: u64) -> bool {
    if h.bond.is_rolling {
        h.withdrawal_requested_at != 0 && h.withdrawal_requested_at
            + h.bond.notice_period_duration <= now
    } else {
        h.bond.bond_start + h.bond.duration <= now
    }
}

/// Why a bond of the book is not open.
pub open spec fn is_not_open(h: HeldBond) -> Revert {
    if h.bond.is_rolling && h.withdrawal_requested_at == 0 {
        Revert::NoticeNotStarted
    } else if h.bond.is_rolling {
        if h.withdrawal_requested_at + h.bond.notice_period_duration > u64::MAX {
            Revert::ArithmeticOverflow
        } else {
            Revert::NoticePeriodNotElapsed
        }
    } else if h.bond.bond_start + h.bond.duration > u64::MAX {
        Revert::ArithmeticOverflow
    } else {
        coded(ContractError::LockupNotExpired)
    }
}

/// What a withdrawal from the book comes to: the identity, who signs, is paid from its open bond
/// what is asked for, up to what slashing left; the bond holds that much less and nothing else
/// changes.
pub open spec fn takes(
    s: BookState,
    t: BookState,
    r: Result<Outcome<()>, Revert>,
    call: Call,
    identity: Address,
    amount: i128,
    locked: bool,
) -> bool {
    let h = s.bonds[identity];
    let left = h.bond.amount - h.slashed_amount;
    let remaining = (h.bond.amount - amount) as i128;
    comes_to(
        s,
        t,
        r,
        !s.paused && signed(call, identity) && !s.locked && s.bonds.contains_key(identity)
            && is_open(h, call.now) && is_amount(left) && amount <= left && is_amount(
            h.bond.amount - amount,
        ),
        if s.paused {
            Revert::Paused
        } else if !signed(call, identity) {
            Revert::Unauthorized
        } else if s.locked {
            coded(ContractError::ReentrancyDetected)
        } else if !s.bonds.contains_key(identity) {
            coded(ContractError::BondNotFound)
        } else if !is_open(h, call.now) {
            is_not_open(h)
        } else if !is_amount(left) {
            Revert::ArithmeticOverflow
        } else if amount > left {
            coded(ContractError::InsufficientBalance)
        } else {
            coded(ContractError::Underflow)
        },
        BookState {
            bonds: s.bonds.insert(
                identity,
                HeldBond { bond: Bond { amount: remaining, ..h.bond }, ..h },
            ),
            locked,
            ..s
        },
        (),
        seq![
            Effect::TransferOut { to: identity, amount },
            Effect::Publish(
                Event::Withdrawal { identity, amount, remaining, timestamp: call.now },
            ),
        ],
    )
}

/// A withdrawal from the book pays the identity out of its own open bond; the lock is held while
/// it pays, and free after it.
pub proof fn law_book_pays_out_of_an_open_bond(
    b: &mut BondBook,
    d: &mut BondBook,
    call: Call,
    identity: Address,
    amount: i128,
    begun: Result<Outcome<()>, Revert>,
    done: Result<Outcome<()>, Revert>,
)
    requires
        call_ensures(BondBook::withdraw_begin, (b, &call, identity, amount), begun),
        call_ensures(BondBook::withdraw, (d, &call, identity, amount), done),
    ensures
        takes(old(b)@, final(b)@, begun, call, identity, amount, true),
        takes(old(d)@, final(d)@, done, call, identity, amount, false),
{
}

/// A slash by the signing administrator adds its amount to what was slashed of an identity's
/// bond, stopping at what the bond holds, and changes nothing else.
pub proof fn law_book_slashes_a_bond(
    b: &mut BondBook,
    call: Call,
    admin: Address,
    identity: Address,
    amount: i128,
    r: Result<Outcome<()>, Revert>,
)
    requires
        call_ensures(BondBook::slash, (b, &call, admin, identity, amount), r),
    ensures
        ({
            let s = old(b)@;
            let h = s.bonds[identity];
            let sum = h.slashed_amount + amount;
            let total: i128 = if sum > h.bond.amount {
                h.bond.amount
            } else {
                sum as i128
            };
            comes_to(
                s,
                final(b)@,
                r,
                !s.paused && signed(call, admin) && s.admin == Some(admin)
                    && s.bonds.contains_key(identity) && is_amount(sum),
                if s.paused {
                    Revert::Paused
                } else if !signed(call, admin) {
                    Revert::Unauthorized
                } else if s.admin != Some(admin) {
                    coded(ContractError::NotAdmin)
                } else if !s.bonds.contains_key(identity) {
                    coded(ContractError::BondNotFound)
                } else {
                    coded(ContractError::Overflow)
                },
                BookState {
                    bonds: s.bonds.insert(identity, HeldBond { slashed_amount: total, ..h }),
                    ..s
                },
                (),
                seq![
                    Effect::Publish(
                        Event::BondSlashed { identity, amount, total, timestamp: call.now },
                    ),
                ],
            )
        }),
{
}

} // verus!
