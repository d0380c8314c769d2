//! The bond: what it is worth, when it opens, and how it ends.
use crate::address::Address;
use crate::amount::{clamp_amount, fits_amount};
use crate::attestation::{add_next, batch_upto, consume, strike, WeighedItem};
use crate::call::Call;
use crate::claims::sweep_next;
use crate::effect::{Effect, Event};
use crate::emergency::{drain_next, next_record};
use crate::error::{ContractError, Revert, Verdict};
use crate::fees::{collect_next, deposit_next};
use crate::laws::access::Request;
use crate::laws::{fees_paid, lemma_paid_out_push, paid_out};
use crate::lifecycle::{
    available, close_refusal, create_finish_refusal, due_for_renewal, early_effects,
    early_query_refusal, early_refusal, emptied, extend_refusal, extended, lockup_end, new_bond,
    notice_refusal, penalty_query, reduced, renewed, request_refusal, requested, saturated_end,
    top_up_finish_refusal, topped_up, with_bond, withdraw_refusal, PenaltyQuery,
};
use crate::parameters::with_parameters;
use crate::slashing::{
    capped_slash, expired_unrenewed, finalized, fully_slashed, liquidate_effects, liquidate_next,
    liquidate_refusal, noted, residual, slash_bond_refusal, slash_refusal, slash_taken,
    with_slashed,
};
use crate::state::{fresh_state, gate_refusal, State};
use crate::table::get_or;
use crate::tier::{rank, tier_of, with_tier_change};
use crate::types::{
    EarlyExitConfig, IdentityBond, Operation, Parameters, TierThresholds, WeightConfig,
};
use vstd::prelude::*;

verus! {

/// A bond is solvent: while it is active, what was slashed of it lies between zero and what it
/// holds.
pub open spec fn solvent(b: IdentityBond) -> bool {
    b.active ==> 0 <= b.slashed_amount <= b.bonded_amount
}

/// A contract is solvent: its bond is, where it has one.
pub open spec fn is_solvent(s: State) -> bool {
    s.bond matches Some(b) ==> solvent(b)
}

/// A contract that was just deployed is solvent.
pub proof fn law_fresh_contracts_are_solvent(
    thresholds: TierThresholds,
    parameters: Parameters,
    weights: WeightConfig,
)
    ensures
        is_solvent(fresh_state(thresholds, parameters, weights)),
{
}

/// A new bond over an amount that is not negative is solvent, and its end fits a timestamp.
pub proof fn law_new_bonds_are_solvent(
    s: State,
    call: Call,
    identity: Address,
    amount: i128,
    duration: u64,
    is_rolling: bool,
    notice: u64,
    check: Verdict,
)
    requires
        amount >= 0,
        create_finish_refusal(call, duration, check) is None,
    ensures
        ({
            let b = new_bond(call, identity, amount, duration, is_rolling, notice);
            &&& is_solvent(with_bond(s, b))
            &&& available(b) == amount
            &&& lockup_end(b) <= u64::MAX
        }),
{
}

/// A top-up by an amount that is not negative keeps the bond solvent, and makes exactly that
/// amount available.
pub proof fn law_top_up_keeps_solvency(s: State, amount: i128, check: Verdict)
    requires
        is_solvent(s),
        s.bond is Some,
        amount >= 0,
        top_up_finish_refusal(s.bond->0, amount, check) is None,
    ensures
        is_solvent(with_bond(s, topped_up(s.bond->0, amount))),
        available(topped_up(s.bond->0, amount)) == available(s.bond->0) + amount,
{
}

/// A withdrawal, early or not, keeps the bond solvent, takes exactly its amount of what is
/// available, and never more than that.
pub proof fn law_withdrawals_keep_solvency(
    s: State,
    call: Call,
    identity: Address,
    amount: i128,
    penalty: i128,
)
    requires
        is_solvent(s),
        withdraw_refusal(s, call, identity, amount) is None || early_refusal(
            s,
            call,
            identity,
            amount,
            penalty,
        ) is None,
    ensures
        is_solvent(with_bond(s, reduced(s.bond->0, amount))),
        0 <= amount <= available(s.bond->0),
        available(reduced(s.bond->0, amount)) == available(s.bond->0) - amount,
{
}

/// A guarded slash by an amount that is not negative keeps the bond solvent, and takes exactly
/// that amount of what is available.
pub proof fn law_slash_bond_keeps_solvency(
    s: State,
    call: Call,
    admin: Address,
    amount: i128,
    salt: Seq<u8>,
)
    requires
        is_solvent(s),
        amount >= 0,
        slash_bond_refusal(s, call, admin, amount, salt) is None,
    ensures
        ({
            let b = s.bond->0;
            let after = with_slashed(b, b.slashed_amount + amount);
            &&& is_solvent(with_bond(s, after))
            &&& b.slashed_amount <= after.slashed_amount <= b.bonded_amount
            &&& available(after) == available(b) - amount
        }),
{
}

/// A slash to the treasury by an amount that is not negative keeps the bond solvent, never takes
/// more than was asked for or is there, and never gives anything back.
pub proof fn law_slash_keeps_solvency(
    s: State,
    call: Call,
    admin: Address,
    amount: i128,
    admitted: Verdict,
)
    requires
        is_solvent(s),
        s.bond is Some,
        s.bond->0.active,
        amount >= 0,
        slash_refusal(s, call, admin, amount, admitted) is None,
    ensures
        ({
            let b = s.bond->0;
            let after = with_slashed(b, capped_slash(b, amount));
            &&& is_solvent(with_bond(s, after))
            &&& 0 <= slash_taken(b, amount) <= amount
            &&& slash_taken(b, amount) <= available(b)
            &&& clamp_amount(slash_taken(b, amount)) == slash_taken(b, amount)
            &&& available(after) == available(b) - slash_taken(b, amount)
            &&& available(after) == 0 || slash_taken(b, amount) == amount
        }),
{
}

/// Requests, renewals, extensions, liquidations and closing keep the bond solvent.
pub proof fn law_other_changes_keep_solvency(s: State, now: u64, additional_duration: u64)
    requires
        is_solvent(s),
        s.bond is Some,
    ensures
        is_solvent(with_bond(s, requested(s.bond->0, now))),
        is_solvent(with_bond(s, renewed(s.bond->0, now))),
        is_solvent(with_bond(s, extended(s.bond->0, additional_duration))),
        is_solvent(with_bond(s, emptied(s.bond->0))),
        is_solvent(liquidate_next(s)),
{
}

/// A withdrawal undoes a top-up by the same amount.
pub proof fn law_withdrawal_undoes_top_up(b: IdentityBond, amount: i128)
    requires
        fits_amount(b.bonded_amount + amount),
    ensures
        reduced(topped_up(b, amount), amount) == b,
{
}

/// Top-ups add up, and so do extensions.
pub proof fn law_growth_adds_up(b: IdentityBond, x: i128, y: i128, d: u64, e: u64)
    requires
        fits_amount(x + y),
        fits_amount(b.bonded_amount + x),
        fits_amount(b.bonded_amount + x + y),
        b.bond_duration + d + e <= u64::MAX,
    ensures
        topped_up(topped_up(b, x), y) == topped_up(b, (x + y) as i128),
        extended(extended(b, d), e) == extended(b, (d + e) as u64),
        lockup_end(extended(b, d)) == lockup_end(b) + d,
{
}

/// An extension never brings the end of the lock-up forward, nor past the end of time.
pub proof fn law_extension_moves_the_end_back(
    s: State,
    call: Call,
    identity: Address,
    additional_duration: u64,
)
    requires
        extend_refusal(s, call, identity, additional_duration) is None,
    ensures
        ({
            let after = extended(s.bond->0, additional_duration);
            lockup_end(s.bond->0) <= lockup_end(after) <= u64::MAX
        }),
{
}

/// At any time at most one of the two withdrawals is open: before the end of the lock-up only
/// the early one, and from the end on only the other.
pub proof fn law_lockup_parts_the_withdrawals(
    s: State,
    call: Call,
    identity: Address,
    amount: i128,
    early_amount: i128,
    penalty: i128,
)
    requires
        s.bond is Some,
    ensures
        call.now < lockup_end(s.bond->0) ==> withdraw_refusal(s, call, identity, amount) is Some,
        call.now >= lockup_end(s.bond->0) ==> early_refusal(
            s,
            call,
            identity,
            early_amount,
            penalty,
        ) is Some,
        withdraw_refusal(s, call, identity, amount) is None ==> early_refusal(
            s,
            call,
            identity,
            early_amount,
            penalty,
        ) is Some,
{
}

/// An early withdrawal is split exactly: the penalty and the payout are not negative and add up
/// to the amount; that is what the contract pays out, and the penalty is what it pays of that as
/// a fee.
pub proof fn law_early_exit_splits_exactly(
    s: State,
    call: Call,
    identity: Address,
    amount: i128,
    penalty: i128,
)
    requires
        early_refusal(s, call, identity, amount, penalty) is None,
    ensures
        0 <= penalty,
        0 <= amount - penalty,
        penalty + (amount - penalty) == amount,
        paid_out(early_effects(s, amount, penalty)) == amount,
        fees_paid(early_effects(s, amount, penalty)) == penalty,
{
    let b = s.bond->0;
    let treasury = s.early_exit->0.treasury;
    let event = Effect::Publish(
        Event::EarlyExitPenalty { identity: b.identity, amount, penalty, treasury },
    );
    let from = tier_of(s.tier_thresholds, b.bonded_amount as int);
    let to = tier_of(s.tier_thresholds, b.bonded_amount - amount);
    let first = seq![event];
    let second = with_tier_change(first, b.identity, from, to);
    let fee = Effect::FeeTransferOut { to: treasury, amount: penalty };
    let payout = Effect::TransferOut { to: b.identity, amount: (amount - penalty) as i128 };
    assert(first =~= Seq::<Effect>::empty().push(event));
    lemma_paid_out_push(Seq::<Effect>::empty(), event);
    lemma_paid_out_push(
        first,
        Effect::Publish(Event::TierChanged { identity: b.identity, from, to }),
    );
    assert(paid_out(second) == 0);
    assert(fees_paid(second) == 0);
    lemma_paid_out_push(second, fee);
    lemma_paid_out_push(second, payout);
    lemma_paid_out_push(second.push(fee), payout);
}

/// Without an early-exit configuration no penalty is dropped: the early withdrawal is refused.
pub proof fn law_early_exit_needs_its_treasury(
    s: State,
    call: Call,
    identity: Address,
    amount: i128,
    penalty: i128,
    config: EarlyExitConfig,
)
    requires
        s.early_exit is None,
    ensures
        early_refusal(s, call, identity, amount, penalty) is Some,
        early_query_refusal(
            State { early_exit: Some(config), ..s },
            call,
            identity,
            amount,
        ) is None ==> early_refusal(s, call, identity, amount, penalty) == Some(
            Revert::Contract(ContractError::EarlyExitConfigNotSet),
        ),
{
}

/// The penalty is asked for on a share of the lock-up that is left: there is some, and no more
/// than the whole lock-up where it began in the past.
pub proof fn law_penalty_share_is_sound(
    s: State,
    call: Call,
    identity: Address,
    amount: i128,
)
    requires
        early_query_refusal(s, call, identity, amount) is None,
    ensures
        0 < penalty_query(s, call, amount).remaining,
        s.bond->0.bond_start <= call.now ==> penalty_query(s, call, amount).remaining
            <= s.bond->0.bond_duration,
{
}

/// A formula for the penalty decays: of two withdrawals that differ in the time left of the
/// lock-up alone, the one with less time left is not charged more.
pub open spec fn decays(formula: spec_fn(PenaltyQuery) -> i128) -> bool {
    forall|q: PenaltyQuery, remaining: u64|
        remaining <= q.remaining ==> #[trigger] formula(PenaltyQuery { remaining, ..q })
            <= formula(q)
}

/// Waiting shrinks what the penalty is asked on: at a later time the share of the lock-up that is
/// left is smaller by just the time that has passed, and all else that the penalty is computed
/// from is the same.
pub proof fn law_penalty_share_decays(
    s: State,
    call: Call,
    later: Call,
    identity: Address,
    amount: i128,
)
    requires
        call.now <= later.now,
        early_query_refusal(s, call, identity, amount) is None,
        early_query_refusal(s, later, identity, amount) is None,
    ensures
        ({
            let q = penalty_query(s, call, amount);
            let p = penalty_query(s, later, amount);
            &&& p == (PenaltyQuery { remaining: p.remaining, ..q })
            &&& p.remaining == q.remaining - (later.now - call.now)
            &&& p.remaining <= q.remaining
        }),
{
}

/// The penalty decays with time: of two early withdrawals of the same amount from the same bond,
/// at the penalties that a decaying formula gives for them, the later one pays no more to the
/// treasury and no less to the bond's owner.
pub proof fn law_early_exit_penalty_decays(
    s: State,
    call: Call,
    later: Call,
    identity: Address,
    amount: i128,
    formula: spec_fn(PenaltyQuery) -> i128,
)
    requires
        decays(formula),
        call.now <= later.now,
        early_refusal(s, call, identity, amount, formula(penalty_query(s, call, amount)))
            is None,
        early_refusal(s, later, identity, amount, formula(penalty_query(s, later, amount)))
            is None,
    ensures
        ({
            let first = early_effects(s, amount, formula(penalty_query(s, call, amount)));
            let second = early_effects(s, amount, formula(penalty_query(s, later, amount)));
            &&& formula(penalty_query(s, later, amount)) <= formula(
                penalty_query(s, call, amount),
            )
            &&& fees_paid(second) <= fees_paid(first)
            &&& paid_out(second) - fees_paid(second) >= paid_out(first) - fees_paid(first)
        }),
{
    let q = penalty_query(s, call, amount);
    let p = penalty_query(s, later, amount);
    law_penalty_share_decays(s, call, later, identity, amount);
    assert(formula(PenaltyQuery { remaining: p.remaining, ..q }) <= formula(q));
    law_early_exit_splits_exactly(s, call, identity, amount, formula(q));
    law_early_exit_splits_exactly(s, later, identity, amount, formula(p));
}

/// A rolling bond opens only after notice: a withdrawal that is not refused was requested, and
/// its notice period has run out.
pub proof fn law_rolling_bonds_need_notice(
    s: State,
    call: Call,
    identity: Address,
    amount: i128,
)
    requires
        s.bond is Some,
        s.bond->0.is_rolling,
        withdraw_refusal(s, call, identity, amount) is None || close_refusal(s, call, identity)
            is None,
    ensures
        s.bond->0.withdrawal_requested_at != 0,
        call.now >= s.bond->0.withdrawal_requested_at + s.bond->0.notice_period_duration,
{
}

/// A request is made once: after one, made after the epoch, the next is refused.
pub proof fn law_withdrawal_is_requested_once(
    s: State,
    call: Call,
    identity: Address,
    later: Call,
    who: Address,
)
    requires
        request_refusal(s, call, identity) is None,
        call.now != 0,
        later.has_auth(who),
    ensures
        request_refusal(with_bond(s, requested(s.bond->0, call.now)), later, who) == Some(
            Revert::Contract(ContractError::WithdrawalAlreadyRequested),
        ),
{
}

/// Notice leads out: once the notice period of a request and the lock-up have run out, whatever
/// is available may be withdrawn.
pub proof fn law_notice_opens_the_bond(
    s: State,
    call: Call,
    identity: Address,
    later: Call,
    who: Address,
    amount: i128,
)
    requires
        request_refusal(s, call, identity) is None,
        call.now != 0,
        later.has_auth(who),
        lockup_end(s.bond->0) <= later.now,
        call.now + s.bond->0.notice_period_duration <= later.now,
        fits_amount(available(s.bond->0)),
        0 < amount <= available(s.bond->0),
    ensures
        ({
            let next = with_bond(s, requested(s.bond->0, call.now));
            &&& notice_refusal(next.bond->0, later.now) is None
            &&& withdraw_refusal(next, later, who, amount) is None
        }),
{
}

/// A request stops the rolling: from then on the bond is not renewed.
pub proof fn law_request_stops_renewal(
    s: State,
    call: Call,
    identity: Address,
    later: u64,
)
    requires
        request_refusal(s, call, identity) is None,
        call.now != 0,
    ensures
        !due_for_renewal(requested(s.bond->0, call.now), later),
{
}

/// A renewal starts the next period and nothing else: the amounts, the duration, the owner and
/// the terms stay, the lock-up runs again, and the bond is not due again before its end.
pub proof fn law_renewal_starts_the_next_period(b: IdentityBond, now: u64, later: u64)
    requires
        due_for_renewal(b, now),
    ensures
        ({
            let after = renewed(b, now);
            &&& after == (IdentityBond { bond_start: after.bond_start, ..b })
            &&& after.bond_start == now
            &&& saturated_end(after) >= saturated_end(b)
            &&& later < lockup_end(after) && later < u64::MAX ==> !due_for_renewal(after, later)
        }),
{
}

/// A bond ends once: after its liquidation it counts as liquidated, and it can be neither
/// liquidated again, nor closed, nor slashed under guard.
pub proof fn law_liquidation_is_final(
    s: State,
    call: Call,
    admin: Address,
    later: Call,
    who: Address,
    amount: i128,
)
    requires
        liquidate_refusal(s, call, admin) is None,
    ensures
        ({
            let next = liquidate_next(s);
            &&& marked(next, s.bond->0.identity)
            &&& !next.bond->0.active
            &&& liquidate_refusal(next, later, who) is Some
            &&& gate_refusal(next, later, admin) is None ==> liquidate_refusal(next, later, admin)
                == Some(Revert::Contract(ContractError::BondNotActive))
            &&& close_refusal(next, later, who) is Some
            &&& slash_bond_refusal(next, later, who, amount, Seq::empty()) is Some
        }),
{
}

/// Whether an identity counts as liquidated.
pub open spec fn marked(s: State, identity: Address) -> bool {
    get_or(s.liquidated, identity, false)
}

/// A batch of attestations leaves the marks of liquidation alone.
proof fn lemma_batch_keeps_marks(
    s: State,
    call: Call,
    subject: Address,
    items: Seq<WeighedItem>,
    k: int,
)
    ensures
        batch_upto(s, call, subject, items, k).liquidated == s.liquidated,
    decreases k,
{
    if k > 0 {
        lemma_batch_keeps_marks(s, call, subject, items, k - 1);
    }
}

/// The mark of a liquidation is never taken away, whichever entry point is called: a later
/// liquidation, of this identity's bond or another's, leaves it, and nothing else touches it. The
/// entry points that only set an entry of their own are those whose next state is `other` with
/// the marks of `s`.
pub proof fn law_liquidation_mark_stays(s: State, identity: Address, other: State, q: Request)
    requires
        marked(s, identity),
    ensures
        marked(liquidate_next(s), identity),
        forall|b: IdentityBond| marked(#[trigger] with_bond(s, b), identity),
        marked(State { locked: true, ..liquidate_next(s) }, identity),
        marked(noted(s, q.who, Operation::SlashBond, q.data), identity),
        forall|b: IdentityBond|
            marked(
                #[trigger] with_bond(noted(s, q.who, Operation::SlashBond, q.data), b),
                identity,
            ),
        marked(deposit_next(s, q.amount), identity),
        marked(collect_next(s, q.who, q.data), identity),
        marked(add_next(s, q.call, q.who, q.other, q.data, q.nonce, q.weight), identity),
        marked(batch_upto(s, q.call, q.other, q.items, q.items.len() as int), identity),
        marked(strike(consume(s, q.who, q.nonce), q.id), identity),
        marked(sweep_next(s, q.call.now, q.who, q.limit), identity),
        marked(drain_next(s, next_record(s, q.call, q.who, q.amount, q.other)), identity),
        forall|p: Parameters| marked(#[trigger] with_parameters(s, p), identity),
        marked(State { liquidated: s.liquidated, ..other }, identity),
{
    lemma_batch_keeps_marks(s, q.call, q.other, q.items, q.items.len() as int);
}

/// A bond is closed once: after the withdrawal of the whole it holds nothing, and it can be
/// neither closed again, nor liquidated, nor slashed under guard.
pub proof fn law_closing_is_final(
    s: State,
    call: Call,
    identity: Address,
    later: Call,
    who: Address,
    amount: i128,
)
    requires
        close_refusal(s, call, identity) is None,
    ensures
        ({
            let next = with_bond(s, emptied(s.bond->0));
            &&& next.bond->0.bonded_amount == 0
            &&& close_refusal(next, later, who) is Some
            &&& liquidate_refusal(next, later, who) is Some
            &&& slash_bond_refusal(next, later, who, amount, Seq::empty()) is Some
        }),
{
}

/// A healthy bond is safe from liquidation: while something is left of it, a rolling bond is
/// never liquidated, and another one not before its end.
pub proof fn law_healthy_bonds_are_not_liquidated(s: State, call: Call, admin: Address)
    requires
        s.bond is Some,
        s.bond->0.slashed_amount < s.bond->0.bonded_amount,
        s.bond->0.is_rolling || call.now < saturated_end(s.bond->0),
    ensures
        liquidate_refusal(s, call, admin) is Some,
        !fully_slashed(s.bond->0) && !expired_unrenewed(s.bond->0, call.now),
{
}

/// A liquidation accounts for what is left: of a solvent bond the residual is what is available,
/// and what the contract pays out is all of it or nothing.
pub proof fn law_liquidation_pays_the_residual(s: State, call: Call, admin: Address)
    requires
        is_solvent(s),
        liquidate_refusal(s, call, admin) is None,
    ensures
        residual(s.bond->0) == available(s.bond->0),
        fully_slashed(s.bond->0) ==> residual(s.bond->0) == 0,
        finalized(s.bond->0).bonded_amount == s.bond->0.bonded_amount,
        paid_out(liquidate_effects(s, call, admin)) == if s.liquidation_treasury is Some
            && s.token is Some {
            residual(s.bond->0) as int
        } else {
            0
        },
{
    let e = liquidate_effects(s, call, admin);
    let b = s.bond->0;
    let bump = crate::effect::bump_instance_ttl();
    let check = crate::effect::check_bond();
    let none = Seq::<Effect>::empty();
    lemma_paid_out_push(none, bump);
    lemma_paid_out_push(none.push(bump), bump);
    lemma_paid_out_push(none.push(bump).push(bump), check);
    let head = seq![bump, bump, check];
    assert(head =~= none.push(bump).push(bump).push(check));
    assert(paid_out(head) == 0);
    let sweep = Effect::Sweep { to: s.liquidation_treasury->0, amount: residual(b) };
    lemma_paid_out_push(head, sweep);
    let swept = s.liquidation_treasury is Some && s.token is Some && residual(b) > 0;
    let middle = if swept {
        head.push(sweep)
    } else {
        head
    };
    assert(e =~= middle.push(e.last()));
    lemma_paid_out_push(middle, e.last());
}

/// More is never less: a larger amount is never in a lower tier.
pub proof fn law_tiers_grow_with_the_amount(t: TierThresholds, a: int, b: int)
    requires
        a <= b,
    ensures
        rank(tier_of(t, a)) <= rank(tier_of(t, b)),
{
}

} // verus!
