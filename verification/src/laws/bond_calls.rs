//! What each call on the bond does, told of what it is handed and what it gives.
use crate::address::Address;
use crate::call::Call;
use crate::effect::{Effect, Event, Hook, Outcome};
use crate::error::{ContractError, Revert, Verdict};
use crate::laws::{coded, comes_to, is_amount, keep_alive, lies_in, self_check, signed};
use crate::lifecycle::PenaltyQuery;
use crate::state::{CredenceBond, State};
use crate::types::{BondStateView, BondTier, IdentityBond};
use vstd::prelude::*;

verus! {

/// Takes and frees of the lock: it is taken where it is free, and freed in any case, and nothing
/// else is touched.
pub proof fn law_lock_is_taken_and_freed(
    c: &mut CredenceBond,
    d: &mut CredenceBond,
    r: Result<(), Revert>,
    u: (),
)
    requires
        call_ensures(CredenceBond::acquire_lock, (c,), r),
        call_ensures(CredenceBond::release_lock, (d,), u),
    ensures
        r is Ok <==> !old(c)@.locked,
        r is Err ==> r->Err_0 == coded(ContractError::ReentrancyDetected),
        final(c)@ == (State { locked: true, ..old(c)@ }),
        final(d)@ == (State { locked: false, ..old(d)@ }),
{
}

/// Whether tokens may be bonded in an identity's name.
pub open spec fn may_bond(s: State, call: Call, identity: Address) -> bool {
    !s.paused && signed(call, identity) && !s.borrow_frozen
}

/// Why tokens may not be bonded in an identity's name.
pub open spec fn may_not_bond(s: State, call: Call, identity: Address) -> Revert {
    if s.paused {
        Revert::Paused
    } else if !signed(call, identity) {
        Revert::Unauthorized
    } else {
        Revert::BorrowFrozen
    }
}

/// The pull of tokens, where there is a token.
pub open spec fn pull(s: State, from: Address, amount: i128) -> Seq<Effect> {
    if s.token is Some {
        seq![Effect::TransferIn { from, amount }]
    } else {
        seq![]
    }
}

/// The event of a change of tier, where there is one.
pub open spec fn tier_event(identity: Address, from: BondTier, to: BondTier) -> Seq<Effect> {
    if from != to {
        seq![Effect::Publish(Event::TierChanged { identity, from, to })]
    } else {
        seq![]
    }
}

/// A new bond: it starts now, holds what was put in, is active, and nothing of it is slashed or
/// asked back.
pub open spec fn is_new_bond(
    b: IdentityBond,
    call: Call,
    identity: Address,
    amount: i128,
    duration: u64,
    is_rolling: bool,
    notice: u64,
) -> bool {
    &&& b.identity == identity
    &&& b.bonded_amount == amount
    &&& b.bond_start == call.now
    &&& b.bond_duration == duration
    &&& b.slashed_amount == 0
    &&& b.active
    &&& b.is_rolling == is_rolling
    &&& b.withdrawal_requested_at == 0
    &&& b.notice_period_duration == notice
}

/// What the storing of a new bond comes to, after other effects.
pub open spec fn stores_new_bond(
    s: State,
    t: State,
    r: Result<Outcome<IdentityBond>, Revert>,
    call: Call,
    identity: Address,
    amount: i128,
    duration: u64,
    is_rolling: bool,
    notice: u64,
    first: Seq<Effect>,
    tier: BondTier,
) -> bool {
    &&& r is Ok
    &&& is_new_bond(r->Ok_0.value, call, identity, amount, duration, is_rolling, notice)
    &&& t == (State { bond: Some(r->Ok_0.value), ..s })
    &&& r->Ok_0.effects@ =~= first + seq![keep_alive()] + tier_event(
        identity,
        BondTier::Bronze,
        tier,
    ) + seq![self_check()]
}

/// A bond is created for an identity that signs, while nothing is paused or frozen, where its end
/// fits a timestamp and the amount rules agree; it takes the place of any bond that was there.
pub proof fn law_bond_is_created(
    c: &mut CredenceBond,
    call: Call,
    identity: Address,
    amount: i128,
    duration: u64,
    is_rolling: bool,
    notice: u64,
    check: Verdict,
    r: Result<Outcome<IdentityBond>, Revert>,
    tier: BondTier,
)
    requires
        call_ensures(
            CredenceBond::create_bond,
            (c, &call, identity, amount, duration, is_rolling, notice, check),
            r,
        ),
        lies_in(old(c)@.tier_thresholds, amount as int, tier),
    ensures
        ({
            let s = old(c)@;
            let fits = call.now + duration <= u64::MAX;
            if may_bond(s, call, identity) && fits && check is Ok {
                stores_new_bond(
                    s,
                    final(c)@,
                    r,
                    call,
                    identity,
                    amount,
                    duration,
                    is_rolling,
                    notice,
                    pull(s, identity, amount),
                    tier,
                )
            } else {
                &&& r is Err
                &&& final(c)@ == s
                &&& r->Err_0 == (if !may_bond(s, call, identity) {
                    may_not_bond(s, call, identity)
                } else if !fits {
                    Revert::BondEndWouldOverflow
                } else {
                    check->Err_0
                })
            }
        }),
{
}

/// The two halves of a creation: the first decides on who asks and has the tokens pulled in, the
/// second on the terms, and stores the bond.
pub proof fn law_bond_is_created_in_halves(
    c: CredenceBond,
    d: &mut CredenceBond,
    call: Call,
    identity: Address,
    amount: i128,
    duration: u64,
    is_rolling: bool,
    notice: u64,
    check: Verdict,
    begun: Result<Outcome<()>, Revert>,
    r: Result<Outcome<IdentityBond>, Revert>,
    tier: BondTier,
)
    requires
        call_ensures(CredenceBond::create_bond_begin, (&c, &call, identity, amount), begun),
        call_ensures(
            CredenceBond::create_bond_finish,
            (d, &call, identity, amount, duration, is_rolling, notice, check),
            r,
        ),
        lies_in(old(d)@.tier_thresholds, amount as int, tier),
    ensures
        begun is Ok <==> may_bond(c@, call, identity),
        begun is Err ==> begun->Err_0 == may_not_bond(c@, call, identity),
        begun is Ok ==> begun->Ok_0.effects@ =~= pull(c@, identity, amount),
        if call.now + duration <= u64::MAX && check is Ok {
            stores_new_bond(
                old(d)@,
                final(d)@,
                r,
                call,
                identity,
                amount,
                duration,
                is_rolling,
                notice,
                seq![],
                tier,
            )
        } else {
            &&& r is Err
            &&& final(d)@ == old(d)@
            &&& r->Err_0 == (if call.now + duration > u64::MAX {
                Revert::BondEndWouldOverflow
            } else {
                check->Err_0
            })
        },
{
}

/// The readers of the bond read it as it is held: in full, with what is left of it and its tier
/// to its owner alone, and the tier of what is left.
pub proof fn law_bond_is_read_as_held(
    c: CredenceBond,
    identity: Address,
    state: Result<IdentityBond, Revert>,
    view: Option<BondStateView>,
    tier: Result<BondTier, Revert>,
)
    requires
        call_ensures(CredenceBond::get_identity_state, (&c,), state),
        call_ensures(CredenceBond::describe_bond, (&c, &identity), view),
        call_ensures(CredenceBond::get_tier, (&c,), tier),
    ensures
        state is Ok <==> c.bond is Some,
        state is Ok ==> c.bond == Some(state->Ok_0),
        state is Err ==> state->Err_0 == coded(ContractError::BondNotFound),
        view is Some <==> c.bond is Some && c.bond->0.identity == identity,
        view is Some ==> {
            let (b, v) = (c.bond->0, view->0);
            &&& v.identity == b.identity && v.bonded_amount == b.bonded_amount
                && v.slashed_amount == b.slashed_amount && v.bond_start == b.bond_start
                && v.bond_duration == b.bond_duration && v.active == b.active && v.is_rolling
                == b.is_rolling && v.withdrawal_requested_at == b.withdrawal_requested_at
                && v.notice_period_duration == b.notice_period_duration
            &&& is_amount(b.bonded_amount - b.slashed_amount) ==> v.available_amount
                == b.bonded_amount - b.slashed_amount
            &&& lies_in(c.tier_thresholds, b.bonded_amount as int, v.tier)
        },
        tier is Ok <==> c.bond is Some,
        tier is Err ==> tier->Err_0 == coded(ContractError::BondNotFound),
        tier is Ok && is_amount(c.bond->0.bonded_amount - c.bond->0.slashed_amount) ==> lies_in(
            c.tier_thresholds,
            c.bond->0.bonded_amount - c.bond->0.slashed_amount,
            tier->Ok_0,
        ),
{
}

/// What is told of a bond past the range of amounts is told of the end of that range.
pub proof fn law_bond_is_read_at_the_end_of_the_range(
    c: CredenceBond,
    identity: Address,
    view: Option<BondStateView>,
    tier: Result<BondTier, Revert>,
)
    requires
        call_ensures(CredenceBond::describe_bond, (&c, &identity), view),
        call_ensures(CredenceBond::get_tier, (&c,), tier),
    ensures
        view is Some && c.bond->0.bonded_amount - c.bond->0.slashed_amount > i128::MAX
            ==> view->0.available_amount == i128::MAX,
        view is Some && c.bond->0.bonded_amount - c.bond->0.slashed_amount < i128::MIN
            ==> view->0.available_amount == i128::MIN,
        tier is Ok && c.bond->0.bonded_amount - c.bond->0.slashed_amount > i128::MAX ==> lies_in(
            c.tier_thresholds,
            i128::MAX as int,
            tier->Ok_0,
        ),
        tier is Ok && c.bond->0.bonded_amount - c.bond->0.slashed_amount < i128::MIN ==> lies_in(
            c.tier_thresholds,
            i128::MIN as int,
            tier->Ok_0,
        ),
{
}

/// Whether the notice period of a bond lets it be drawn on at a time: it does not roll, or its
/// withdrawal was requested and the notice has run out.
pub open spec fn notice_is_over(b: IdentityBond, now: u64) -> bool {
    b.is_rolling ==> b.withdrawal_requested_at != 0 && b.withdrawal_requested_at
        + b.notice_period_duration <= now
}

/// Why the notice period of a bond bars it from being drawn on.
pub open spec fn notice_is_not_over(b: IdentityBond) -> Revert {
    if b.withdrawal_requested_at == 0 {
        Revert::WithdrawalNotRequested
    } else if b.withdrawal_requested_at + b.notice_period_duration > u64::MAX {
        Revert::NoticePeriodOverflow
    } else {
        Revert::NoticePeriodNotElapsed
    }
}

/// Withdrawal: who signs takes a positive amount, up to what slashing left, out of a bond whose
/// lock-up and notice are over. The bond holds that much less, and nothing else of it changes.
pub proof fn law_withdrawal_takes_what_is_left(
    c: &mut CredenceBond,
    call: Call,
    identity: Address,
    amount: i128,
    r: Result<Outcome<IdentityBond>, Revert>,
    from: BondTier,
    to: BondTier,
)
    requires
        call_ensures(CredenceBond::withdraw, (c, &call, identity, amount), r),
        old(c)@.bond is Some ==> lies_in(
            old(c)@.tier_thresholds,
            old(c)@.bond->0.bonded_amount as int,
            from,
        ),
        old(c)@.bond is Some ==> lies_in(
            old(c)@.tier_thresholds,
            old(c)@.bond->0.bonded_amount - old(c)@.bond->0.slashed_amount - amount,
            to,
        ),
    ensures
        ({
            let s = old(c)@;
            let b = s.bond->0;
            let left = b.bonded_amount - b.slashed_amount;
            if !s.paused && signed(call, identity) && amount > 0 && s.bond is Some && b.bond_start
                + b.bond_duration <= call.now && notice_is_over(b, call.now) && is_amount(left)
                && amount <= left {
                &&& r is Ok
                &&& r->Ok_0.value == (IdentityBond {
                    bonded_amount: r->Ok_0.value.bonded_amount,
                    ..b
                })
                &&& r->Ok_0.value.bonded_amount == b.bonded_amount - amount
                &&& final(c)@ == (State { bond: Some(r->Ok_0.value), ..s })
                &&& r->Ok_0.effects@ =~= tier_event(b.identity, from, to) + seq![
                    keep_alive(),
                    self_check(),
                ]
            } else {
                &&& r is Err
                &&& final(c)@ == s
                &&& r->Err_0 == (if s.paused {
                    Revert::Paused
                } else if !signed(call, identity) {
                    Revert::Unauthorized
                } else if amount <= 0 {
                    Revert::AmountNotPositive
                } else if s.bond is None {
                    coded(ContractError::BondNotFound)
                } else if b.bond_start + b.bond_duration > u64::MAX {
                    Revert::BondEndOverflow
                } else if call.now < b.bond_start + b.bond_duration {
                    Revert::LockupRunning
                } else if !notice_is_over(b, call.now) {
                    notice_is_not_over(b)
                } else if !is_amount(left) {
                    coded(ContractError::SlashExceedsBond)
                } else {
                    coded(ContractError::InsufficientBalance)
                })
            }
        }),
{
}

/// Whether a bond may be drawn on early: who asks signed, the amount is there, the lock-up runs,
/// and there is a treasury for the penalty.
pub open spec fn may_exit_early(s: State, call: Call, identity: Address, amount: i128) -> bool {
    let b = s.bond->0;
    &&& !s.paused
    &&& signed(call, identity)
    &&& s.bond is Some
    &&& is_amount(b.bonded_amount - b.slashed_amount)
    &&& amount <= b.bonded_amount - b.slashed_amount
    &&& call.now < b.bond_start + b.bond_duration
    &&& call.now < u64::MAX
    &&& s.early_exit is Some
}

/// Why a bond may not be drawn on early.
pub open spec fn may_not_exit_early(
    s: State,
    call: Call,
    identity: Address,
    amount: i128,
) -> Revert {
    let b = s.bond->0;
    if s.paused {
        Revert::Paused
    } else if !signed(call, identity) {
        Revert::Unauthorized
    } else if s.bond is None {
        coded(ContractError::BondNotFound)
    } else if !is_amount(b.bonded_amount - b.slashed_amount) {
        coded(ContractError::SlashExceedsBond)
    } else if amount > b.bonded_amount - b.slashed_amount {
        coded(ContractError::InsufficientBalance)
    } else if call.now >= b.bond_start + b.bond_duration || call.now == u64::MAX {
        coded(ContractError::LockupNotExpired)
    } else {
        coded(ContractError::EarlyExitConfigNotSet)
    }
}

/// The penalty query asks on the amount asked for, at the configured rate, over the bond's own
/// duration, and on the time left until its end or the end of time, whatever kind of bond it is.
pub proof fn law_penalty_is_asked_on_the_terms(
    c: CredenceBond,
    call: Call,
    identity: Address,
    amount: i128,
    r: Result<PenaltyQuery, Revert>,
)
    requires
        call_ensures(CredenceBond::early_exit_query, (&c, &call, identity, amount), r),
    ensures
        r is Ok <==> may_exit_early(c@, call, identity, amount),
        r is Err ==> r->Err_0 == may_not_exit_early(c@, call, identity, amount),
        r is Ok ==> {
            let (q, b) = (r->Ok_0, c.bond->0);
            &&& q.amount == amount
            &&& q.penalty_bps == c.early_exit->0.penalty_bps
            &&& q.bond_duration == b.bond_duration
            &&& b.bond_start + b.bond_duration <= u64::MAX ==> call.now + q.remaining
                == b.bond_start + b.bond_duration
            &&& b.bond_start + b.bond_duration > u64::MAX ==> call.now + q.remaining == u64::MAX
        },
{
}

/// What an early withdrawal comes to, up to what follows its payments: the bond holds `amount`
/// less and nothing else of it changes; the penalty goes to the treasury and the rest to the
/// owner of the bond.
pub open spec fn exits_early(
    s: State,
    t: State,
    r: Result<Outcome<IdentityBond>, Revert>,
    call: Call,
    identity: Address,
    amount: i128,
    penalty: i128,
    from: BondTier,
    to: BondTier,
    locked: bool,
    last: Seq<Effect>,
) -> bool {
    let b = s.bond->0;
    let treasury = s.early_exit->0.treasury;
    let net = amount - penalty;
    if may_exit_early(s, call, identity, amount) && 0 <= penalty && penalty <= amount && !s.locked {
        &&& r is Ok
        &&& r->Ok_0.value == (IdentityBond { bonded_amount: r->Ok_0.value.bonded_amount, ..b })
        &&& r->Ok_0.value.bonded_amount == b.bonded_amount - amount
        &&& t == (State { bond: Some(r->Ok_0.value), locked, ..s })
        &&& r->Ok_0.effects@ =~= seq![
            Effect::Publish(
                Event::EarlyExitPenalty { identity: b.identity, amount, penalty, treasury },
            ),
        ] + tier_event(b.identity, from, to) + (if penalty > 0 {
            seq![Effect::FeeTransferOut { to: treasury, amount: penalty }]
        } else {
            seq![]
        }) + (if net > 0 {
            seq![Effect::TransferOut { to: b.identity, amount: net as i128 }]
        } else {
            seq![]
        }) + last
    } else {
        &&& r is Err
        &&& t == s
        &&& r->Err_0 == (if !may_exit_early(s, call, identity, amount) {
            may_not_exit_early(s, call, identity, amount)
        } else if !is_amount(net) {
            coded(ContractError::Underflow)
        } else if penalty < 0 || penalty > amount {
            coded(ContractError::InvariantViolation)
        } else {
            coded(ContractError::ReentrancyDetected)
        })
    }
}

/// An early withdrawal pays out exactly its amount, part of it as the penalty; while it pays, the
/// lock is held, and after it the lock is free.
pub proof fn law_early_exit_pays_penalty_and_rest(
    c: &mut CredenceBond,
    d: &mut CredenceBond,
    call: Call,
    identity: Address,
    amount: i128,
    penalty: i128,
    begun: Result<Outcome<IdentityBond>, Revert>,
    done: Result<Outcome<IdentityBond>, Revert>,
    from: BondTier,
    to: BondTier,
)
    requires
        old(c)@ == old(d)@,
        call_ensures(
            CredenceBond::withdraw_early_begin,
            (c, &call, identity, amount, penalty),
            begun,
        ),
        call_ensures(CredenceBond::withdraw_early, (d, &call, identity, amount, penalty), done),
        old(c)@.bond is Some ==> lies_in(
            old(c)@.tier_thresholds,
            old(c)@.bond->0.bonded_amount as int,
            from,
        ) && lies_in(
            old(c)@.tier_thresholds,
            old(c)@.bond->0.bonded_amount - amount,
            to,
        ),
    ensures
        exits_early(
            old(c)@,
            final(c)@,
            begun,
            call,
            identity,
            amount,
            penalty,
            from,
            to,
            true,
            seq![],
        ),
        exits_early(
            old(d)@,
            final(d)@,
            done,
            call,
            identity,
            amount,
            penalty,
            from,
            to,
            false,
            seq![self_check()],
        ),
{
}

/// A request for withdrawal marks a rolling bond with the time, once, and nothing else.
pub proof fn law_request_marks_the_time(
    c: &mut CredenceBond,
    call: Call,
    identity: Address,
    r: Result<Outcome<IdentityBond>, Revert>,
)
    requires
        call_ensures(CredenceBond::request_withdrawal, (c, &call, identity), r),
    ensures
        ({
            let s = old(c)@;
            let b = s.bond->0;
            let after = IdentityBond { withdrawal_requested_at: call.now, ..b };
            comes_to(
                s,
                final(c)@,
                r,
                !s.paused && signed(call, identity) && s.bond is Some && b.is_rolling
                    && b.withdrawal_requested_at == 0,
                if s.paused {
                    Revert::Paused
                } else if !signed(call, identity) {
                    Revert::Unauthorized
                } else if s.bond is None {
                    coded(ContractError::BondNotFound)
                } else if !b.is_rolling {
                    coded(ContractError::NotRollingBond)
                } else {
                    coded(ContractError::WithdrawalAlreadyRequested)
                },
                State { bond: Some(after), ..s },
                after,
                seq![
                    Effect::Publish(
                        Event::WithdrawalRequested {
                            identity: b.identity,
                            requested_at: call.now,
                        },
                    ),
                    self_check(),
                ],
            )
        }),
{
}

/// A renewal moves the start of a rolling bond to now, where its period is over and no withdrawal
/// was requested, and nothing else; of any other bond it changes nothing.
pub proof fn law_renewal_moves_the_start(
    c: &mut CredenceBond,
    call: Call,
    identity: Address,
    r: Result<Outcome<IdentityBond>, Revert>,
)
    requires
        call_ensures(CredenceBond::renew_if_rolling, (c, &call, identity), r),
    ensures
        ({
            let s = old(c)@;
            let b = s.bond->0;
            let due = b.is_rolling && b.withdrawal_requested_at == 0 && (call.now >= b.bond_start
                + b.bond_duration || call.now == u64::MAX);
            let after = if due {
                IdentityBond { bond_start: call.now, ..b }
            } else {
                b
            };
            comes_to(
                s,
                final(c)@,
                r,
                !s.paused && signed(call, identity) && s.bond is Some,
                if s.paused {
                    Revert::Paused
                } else if !signed(call, identity) {
                    Revert::Unauthorized
                } else {
                    coded(ContractError::BondNotFound)
                },
                State { bond: Some(after), ..s },
                after,
                if due {
                    seq![
                        keep_alive(),
                        Effect::Publish(
                            Event::BondRenewed {
                                identity: b.identity,
                                bond_start: call.now,
                                bond_duration: b.bond_duration,
                            },
                        ),
                        self_check(),
                    ]
                } else {
                    seq![]
                },
            )
        }),
{
}

/// An extension adds to the duration of the bond, and changes nothing else: owner, amounts, what
/// was slashed, start, activity, rolling, request and notice stay as they were.
pub proof fn law_extension_changes_the_duration_alone(
    c: &mut CredenceBond,
    call: Call,
    identity: Address,
    additional: u64,
    r: Result<Outcome<IdentityBond>, Revert>,
)
    requires
        call_ensures(CredenceBond::extend_duration, (c, &call, identity, additional), r),
    ensures
        ({
            let s = old(c)@;
            let b = s.bond->0;
            if !s.paused && signed(call, identity) && s.bond is Some && b.bond_start
                + b.bond_duration + additional <= u64::MAX {
                let after = r->Ok_0.value;
                &&& r is Ok
                &&& after.bond_duration == b.bond_duration + additional
                &&& after.identity == b.identity
                &&& after.bonded_amount == b.bonded_amount
                &&& after.slashed_amount == b.slashed_amount
                &&& after.bond_start == b.bond_start
                &&& after.active == b.active
                &&& after.is_rolling == b.is_rolling
                &&& after.withdrawal_requested_at == b.withdrawal_requested_at
                &&& after.notice_period_duration == b.notice_period_duration
                &&& final(c)@ == (State { bond: Some(after), ..s })
                &&& r->Ok_0.effects@ =~= seq![keep_alive(), self_check()]
            } else {
                &&& r is Err
                &&& final(c)@ == s
                &&& r->Err_0 == (if s.paused {
                    Revert::Paused
                } else if !signed(call, identity) {
                    Revert::Unauthorized
                } else if s.bond is None {
                    coded(ContractError::BondNotFound)
                } else {
                    coded(ContractError::Overflow)
                })
            }
        }),
{
}

/// Whether a top-up may begin.
pub open spec fn may_top_up(s: State, call: Call, identity: Address) -> bool {
    may_bond(s, call, identity) && s.bond is Some && !s.locked
}

/// Why a top-up may not begin.
pub open spec fn may_not_top_up(s: State, call: Call, identity: Address) -> Revert {
    if !may_bond(s, call, identity) {
        may_not_bond(s, call, identity)
    } else if s.bond is None {
        coded(ContractError::BondNotFound)
    } else {
        coded(ContractError::ReentrancyDetected)
    }
}

/// What the storing of a bond with `amount` more comes to, after other effects: the bond holds
/// that much more, nothing else of it changes, and the lock is free.
pub open spec fn stores_more(
    s: State,
    t: State,
    r: Result<Outcome<IdentityBond>, Revert>,
    b: IdentityBond,
    amount: i128,
    first: Seq<Effect>,
    from: BondTier,
    to: BondTier,
) -> bool {
    &&& r is Ok
    &&& r->Ok_0.value == (IdentityBond { bonded_amount: r->Ok_0.value.bonded_amount, ..b })
    &&& r->Ok_0.value.bonded_amount == b.bonded_amount + amount
    &&& t == (State { bond: Some(r->Ok_0.value), locked: false, ..s })
    &&& r->Ok_0.effects@ =~= first + tier_event(b.identity, from, to) + seq![
        keep_alive(),
        self_check(),
    ]
}

/// The tier of what is left of a bond, where that is an amount.
pub open spec fn left_lies_in(
    s: State,
    bonded_amount: int,
    slashed_amount: int,
    tier: BondTier,
) -> bool {
    &&& is_amount(bonded_amount - slashed_amount) ==> lies_in(
        s.tier_thresholds,
        bonded_amount - slashed_amount,
        tier,
    )
    &&& bonded_amount - slashed_amount > i128::MAX ==> lies_in(
        s.tier_thresholds,
        i128::MAX as int,
        tier,
    )
    &&& bonded_amount - slashed_amount < i128::MIN ==> lies_in(
        s.tier_thresholds,
        i128::MIN as int,
        tier,
    )
}

/// A top-up adds its amount to the bond, pulled from the bond's owner, where who asks signed, the
/// sum is an amount and the amount rules agree.
pub proof fn law_top_up_adds_its_amount(
    c: &mut CredenceBond,
    call: Call,
    identity: Address,
    amount: i128,
    check: Verdict,
    r: Result<Outcome<IdentityBond>, Revert>,
    from: BondTier,
    to: BondTier,
)
    requires
        call_ensures(CredenceBond::top_up, (c, &call, identity, amount, check), r),
        old(c)@.bond is Some ==> left_lies_in(
            old(c)@,
            old(c)@.bond->0.bonded_amount as int,
            old(c)@.bond->0.slashed_amount as int,
            from,
        ) && left_lies_in(
            old(c)@,
            old(c)@.bond->0.bonded_amount + amount,
            old(c)@.bond->0.slashed_amount as int,
            to,
        ),
    ensures
        ({
            let s = old(c)@;
            let b = s.bond->0;
            let fits = is_amount(b.bonded_amount + amount);
            if may_top_up(s, call, identity) && fits && check is Ok {
                stores_more(s, final(c)@, r, b, amount, pull(s, b.identity, amount), from, to)
            } else {
                &&& r is Err
                &&& final(c)@ == s
                &&& r->Err_0 == (if !may_top_up(s, call, identity) {
                    may_not_top_up(s, call, identity)
                } else if !fits {
                    coded(ContractError::Overflow)
                } else {
                    check->Err_0
                })
            }
        }),
{
}

/// The two halves of a top-up: the first takes the lock and has the tokens pulled in from the
/// bond's owner, the second stores the bond it is handed with the amount added, and frees the
/// lock.
pub proof fn law_top_up_adds_in_halves(
    c: &mut CredenceBond,
    d: &mut CredenceBond,
    call: Call,
    identity: Address,
    amount: i128,
    b: IdentityBond,
    check: Verdict,
    begun: Result<Outcome<IdentityBond>, Revert>,
    r: Result<Outcome<IdentityBond>, Revert>,
    from: BondTier,
    to: BondTier,
)
    requires
        call_ensures(CredenceBond::top_up_begin, (c, &call, identity, amount), begun),
        call_ensures(CredenceBond::top_up_finish, (d, b, amount, check), r),
        left_lies_in(old(d)@, b.bonded_amount as int, b.slashed_amount as int, from),
        left_lies_in(old(d)@, b.bonded_amount + amount, b.slashed_amount as int, to),
    ensures
        comes_to(
            old(c)@,
            final(c)@,
            begun,
            may_top_up(old(c)@, call, identity),
            may_not_top_up(old(c)@, call, identity),
            State { locked: true, ..old(c)@ },
            old(c)@.bond->0,
            pull(old(c)@, old(c)@.bond->0.identity, amount),
        ),
        if is_amount(b.bonded_amount + amount) && check is Ok {
            stores_more(old(d)@, final(d)@, r, b, amount, seq![], from, to)
        } else {
            &&& r is Err
            &&& final(d)@ == old(d)@
            &&& r->Err_0 == (if !is_amount(b.bonded_amount + amount) {
                coded(ContractError::Overflow)
            } else {
                check->Err_0
            })
        },
{
}

/// What closing a bond comes to: its owner, who signs, gets what slashing left of it told, at any
/// time where the bond does not roll and after notice where it does; the bond is inactive and
/// holds nothing, and nothing else of it changes.
pub open spec fn closes(
    s: State,
    t: State,
    r: Result<Outcome<i128>, Revert>,
    call: Call,
    identity: Address,
    locked: bool,
) -> bool {
    let b = s.bond->0;
    let left = b.bonded_amount - b.slashed_amount;
    if !s.paused && signed(call, identity) && !s.locked && s.bond is Some && b.identity == identity
        && b.active && notice_is_over(b, call.now) && is_amount(left) {
        &&& r is Ok
        &&& r->Ok_0.value == left
        &&& t == (State {
            bond: Some(IdentityBond { bonded_amount: 0, active: false, ..b }),
            locked,
            ..s
        })
        &&& r->Ok_0.effects@ =~= seq![keep_alive(), self_check()] + (if s.callback is Some {
            seq![
                Effect::Callback {
                    target: s.callback->0,
                    hook: Hook::OnWithdraw,
                    amount: r->Ok_0.value,
                },
            ]
        } else {
            seq![]
        })
    } else {
        &&& r is Err
        &&& t == s
        &&& r->Err_0 == (if s.paused {
            Revert::Paused
        } else if !signed(call, identity) {
            Revert::Unauthorized
        } else if s.locked {
            coded(ContractError::ReentrancyDetected)
        } else if s.bond is None {
            coded(ContractError::BondNotFound)
        } else if b.identity != identity {
            coded(ContractError::NotBondOwner)
        } else if !b.active {
            coded(ContractError::BondNotActive)
        } else if !notice_is_over(b, call.now) {
            notice_is_not_over(b)
        } else {
            Revert::ArithmeticOverflow
        })
    }
}

/// The owner of an active bond closes it with a signature, and gets all that is left of it: at
/// any time where it does not roll, and once its notice is over where it does. The lock is held
/// while the callback runs, and free after it.
pub proof fn law_owner_closes_the_bond(
    c: &mut CredenceBond,
    d: &mut CredenceBond,
    call: Call,
    identity: Address,
    begun: Result<Outcome<i128>, Revert>,
    done: Result<Outcome<i128>, Revert>,
)
    requires
        call_ensures(CredenceBond::withdraw_bond_begin, (c, &call, identity), begun),
        call_ensures(CredenceBond::withdraw_bond, (d, &call, identity), done),
    ensures
        closes(old(c)@, final(c)@, begun, call, identity, true),
        closes(old(d)@, final(d)@, done, call, identity, false),
{
}

} // verus!
