//! The book of bonds.
use crate::address::Address;
use crate::bond::{creation_error, Bond};
use crate::book::{
    adjusted, book_admin_refusal, book_initialize_refusal, cut, cut_refusal, draw_refusal,
    empty_book, increase_refusal, notify_refusal, open_refusal, opened, prolong_refusal, prolonged,
    take_refusal, term_refusal, with_held, BookState, HeldBond,
};
use crate::call::Call;
use crate::error::{ContractError, Revert};
use vstd::prelude::*;

verus! {

/// The terms of a bond decide: it is created exactly where it is well formed, and the notice
/// period of a bond that does not roll plays no part.
pub proof fn law_well_formed_bonds_are_created(bond: Bond, notice_period_duration: u64)
    ensures
        creation_error(bond) is None <==> bond.is_well_formed(),
        !bond.is_rolling ==> creation_error(Bond { notice_period_duration, ..bond })
            == creation_error(bond),
{
}

/// Only who signs gets into the book: where an entry point acts in someone's name, it is refused
/// without that one's authorization.
pub proof fn law_book_refuses_unsigned_calls(
    s: BookState,
    call: Call,
    who: Address,
    other: Address,
    bond: Bond,
    amount: i128,
    extra_duration: u64,
)
    requires
        !call.has_auth(who),
    ensures
        book_initialize_refusal(s, call, who) is Some,
        book_admin_refusal(s, call, who) is Some,
        open_refusal(s, call, who, bond) is Some,
        increase_refusal(s, call, who, amount) is Some,
        prolong_refusal(s, call, who, extra_duration) is Some,
        notify_refusal(s, call, who) is Some,
        take_refusal(s, call, who, amount) is Some,
        cut_refusal(s, call, who, other, amount) is Some,
{
}

/// A bond in the book is sound: what was slashed of it lies between zero and what it holds.
pub open spec fn sound(held: HeldBond) -> bool {
    0 <= held.slashed_amount <= held.bond.amount
}

/// Every bond in the book is sound.
pub open spec fn book_sound(s: BookState) -> bool {
    forall|identity: Address| #[trigger]
        s.bonds.contains_key(identity) ==> sound(s.bonds[identity])
}

/// An empty book is sound.
pub proof fn law_empty_book_is_sound()
    ensures
        book_sound(empty_book()),
{
}

/// Putting a sound bond into a sound book leaves it sound.
proof fn lemma_book_stays_sound(s: BookState, identity: Address, held: HeldBond)
    requires
        book_sound(s),
        sound(held),
    ensures
        book_sound(with_held(s, identity, held)),
{
    let next = with_held(s, identity, held);
    assert forall|other: Address| #[trigger] next.bonds.contains_key(other) implies sound(
        next.bonds[other],
    ) by {
        if other != identity {
            assert(s.bonds.contains_key(other));
        }
    }
}

/// A new bond is well formed, and leaves the book sound.
pub proof fn law_book_opens_sound_bonds(
    s: BookState,
    call: Call,
    identity: Address,
    bond: Bond,
)
    requires
        book_sound(s),
        open_refusal(s, call, identity, bond) is None,
    ensures
        bond.is_well_formed(),
        book_sound(with_held(s, identity, opened(bond))),
{
    lemma_book_stays_sound(s, identity, opened(bond));
}

/// Increases, prolongations and requests leave the book sound.
pub proof fn law_book_growth_keeps_soundness(
    s: BookState,
    call: Call,
    identity: Address,
    amount: i128,
    extra_duration: u64,
)
    requires
        book_sound(s),
        s.bonds.contains_key(identity),
    ensures
        increase_refusal(s, call, identity, amount) is None ==> book_sound(
            with_held(s, identity, adjusted(s.bonds[identity], amount as int)),
        ),
        book_sound(with_held(s, identity, prolonged(s.bonds[identity], extra_duration))),
        book_sound(
            with_held(
                s,
                identity,
                HeldBond { withdrawal_requested_at: call.now, ..s.bonds[identity] },
            ),
        ),
{
    let held = s.bonds[identity];
    if increase_refusal(s, call, identity, amount) is None {
        lemma_book_stays_sound(s, identity, adjusted(held, amount as int));
    }
    lemma_book_stays_sound(s, identity, prolonged(held, extra_duration));
    lemma_book_stays_sound(
        s,
        identity,
        HeldBond { withdrawal_requested_at: call.now, ..held },
    );
}

/// A withdrawal leaves the book sound, and takes no more than is left of the bond.
pub proof fn law_book_withdrawal_keeps_soundness(
    s: BookState,
    call: Call,
    identity: Address,
    amount: i128,
)
    requires
        book_sound(s),
        take_refusal(s, call, identity, amount) is None,
    ensures
        ({
            let held = s.bonds[identity];
            let after = adjusted(held, -amount);
            &&& amount <= held.bond.amount - held.slashed_amount
            &&& after.bond.amount == held.bond.amount - amount
            &&& book_sound(with_held(s, identity, after))
        }),
{
    assert(s.bonds.contains_key(identity));
    lemma_book_stays_sound(s, identity, adjusted(s.bonds[identity], -amount));
}

/// A slash by an amount that is not negative leaves the book sound, never gives anything back,
/// and stops at the amount of the bond.
pub proof fn law_book_slash_keeps_soundness(
    s: BookState,
    call: Call,
    admin: Address,
    identity: Address,
    amount: i128,
)
    requires
        book_sound(s),
        amount >= 0,
        cut_refusal(s, call, admin, identity, amount) is None,
    ensures
        ({
            let held = s.bonds[identity];
            let after = cut(held, amount);
            &&& held.slashed_amount <= after.slashed_amount <= held.bond.amount
            &&& after.slashed_amount <= held.slashed_amount + amount
            &&& book_sound(with_held(s, identity, after))
        }),
{
    assert(s.bonds.contains_key(identity));
    lemma_book_stays_sound(s, identity, cut(s.bonds[identity], amount));
}

/// An identity has one bond: once it has one, no other is opened for it.
pub proof fn law_book_holds_one_bond_each(
    s: BookState,
    call: Call,
    identity: Address,
    bond: Bond,
    later: Call,
    other: Bond,
)
    requires
        open_refusal(s, call, identity, bond) is None,
        later.has_auth(identity),
    ensures
        open_refusal(with_held(s, identity, opened(bond)), later, identity, other) == Some(
            Revert::Contract(ContractError::BondAlreadyExists),
        ),
{
}

/// A bond is its identity's own: a change to one leaves every other as it was.
pub proof fn law_book_keeps_bonds_apart(
    s: BookState,
    identity: Address,
    held: HeldBond,
    other: Address,
)
    requires
        other != identity,
    ensures
        with_held(s, identity, held).bonds.contains_key(other) == s.bonds.contains_key(other),
        s.bonds.contains_key(other) ==> with_held(s, identity, held).bonds[other]
            == s.bonds[other],
{
}

/// Time opens a bond in the book: a withdrawal that is let through comes after the notice period
/// of a request where the bond rolls, and after the lock-up where it does not.
pub proof fn law_book_bonds_open_in_time(
    s: BookState,
    call: Call,
    identity: Address,
    amount: i128,
)
    requires
        take_refusal(s, call, identity, amount) is None,
    ensures
        ({
            let held = s.bonds[identity];
            if held.bond.is_rolling {
                &&& held.withdrawal_requested_at != 0
                &&& call.now >= held.withdrawal_requested_at + held.bond.notice_period_duration
            } else {
                call.now >= held.bond.bond_start + held.bond.duration
            }
        }),
{
}

/// Notice leads out of the book too: once the notice period of a request made after the epoch
/// has run out, what is left of the bond may be withdrawn.
pub proof fn law_book_notice_opens_the_bond(
    s: BookState,
    call: Call,
    identity: Address,
    later: Call,
    amount: i128,
)
    requires
        book_sound(s),
        notify_refusal(s, call, identity) is None,
        call.now != 0,
        !s.locked,
        later.has_auth(identity),
        call.now + s.bonds[identity].bond.notice_period_duration <= later.now,
        0 <= amount <= s.bonds[identity].bond.amount - s.bonds[identity].slashed_amount,
    ensures
        ({
            let held = HeldBond {
                withdrawal_requested_at: call.now,
                ..s.bonds[identity]
            };
            &&& term_refusal(held, later.now) is None
            &&& draw_refusal(held, amount) is None
            &&& take_refusal(with_held(s, identity, held), later, identity, amount) is None
        }),
{
    assert(s.bonds.contains_key(identity));
    assert(sound(s.bonds[identity]));
}

/// A withdrawal undoes an increase by the same amount.
pub proof fn law_book_withdrawal_undoes_increase(
    s: BookState,
    call: Call,
    identity: Address,
    amount: i128,
)
    requires
        increase_refusal(s, call, identity, amount) is None,
    ensures
        adjusted(adjusted(s.bonds[identity], amount as int), -amount) == s.bonds[identity],
{
}

/// A prolongation only adds: the duration grows by what was asked for.
pub proof fn law_book_prolongation_adds(
    s: BookState,
    call: Call,
    identity: Address,
    extra_duration: u64,
)
    requires
        prolong_refusal(s, call, identity, extra_duration) is None,
    ensures
        prolonged(s.bonds[identity], extra_duration).bond.duration
            == s.bonds[identity].bond.duration + extra_duration,
{
}

} // verus!
