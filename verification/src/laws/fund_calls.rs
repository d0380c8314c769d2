//! What each call on fees, transfers, drains and claims does, told of what it is handed and what
//! it gives.
use crate::address::Address;
use crate::call::Call;
use crate::claims::{after_cursor, live_at};
use crate::effect::{Effect, Event, Hook, Outcome};
use crate::error::{ContractError, Revert};
use crate::laws::funds::{lemma_filter, lemma_no_transfer_refused};
use crate::laws::slash_calls::{repeats, with_submission};
use crate::laws::{by_admin, coded, comes_to, is_amount, not_by_admin, signed};
use crate::state::{CredenceBond, State};
use crate::transfer::{total_amount, transfer_refusal, transfers_refusal};
use crate::types::{BatchTransferItem, DrainRecord, Operation, PendingClaim};
use vstd::prelude::*;

verus! {

/// A deposit adds a positive amount to the fees, where the sum is an amount, and nothing else.
pub proof fn law_deposit_adds_to_the_fees(
    c: &mut CredenceBond,
    amount: i128,
    r: Result<Outcome<()>, Revert>,
)
    requires
        call_ensures(CredenceBond::deposit_fees, (c, amount), r),
    ensures
        ({
            let s = old(c)@;
            let t = final(c)@;
            if !s.paused && amount > 0 && s.fees + amount <= i128::MAX {
                &&& r is Ok
                &&& t.fees == s.fees + amount
                &&& t == (State { fees: t.fees, ..s })
                &&& r->Ok_0.effects@ =~= seq![]
            } else {
                &&& r is Err
                &&& t == s
                &&& r->Err_0 == (if s.paused {
                    Revert::Paused
                } else if amount <= 0 {
                    Revert::AmountNotPositive
                } else {
                    Revert::ArithmeticOverflow
                })
            }
        }),
{
}

/// What a collection comes to: the administrator, who signs, is handed all fees, none are left,
/// and the submission is noted.
pub open spec fn collects(
    s: State,
    t: State,
    r: Result<Outcome<i128>, Revert>,
    call: Call,
    admin: Address,
    salt: Seq<u8>,
    locked: bool,
) -> bool {
    comes_to(
        s,
        t,
        r,
        by_admin(s, call, admin) && !repeats(s, admin, Operation::CollectFees, salt) && !s.locked,
        if s.paused {
            Revert::Paused
        } else if !signed(call, admin) {
            Revert::Unauthorized
        } else if repeats(s, admin, Operation::CollectFees, salt) {
            coded(ContractError::DuplicateIdempotencyKey)
        } else if s.locked {
            coded(ContractError::ReentrancyDetected)
        } else {
            not_by_admin(s, call, admin)
        },
        State {
            fees: 0,
            idempotency_keys: with_submission(s, admin, Operation::CollectFees, salt),
            locked,
            ..s
        },
        s.fees,
        if s.callback is Some {
            seq![Effect::Callback { target: s.callback->0, hook: Hook::OnCollect, amount: s.fees }]
        } else {
            seq![]
        },
    )
}

/// A collection hands out all fees; the lock is held while the callback runs, and free after it.
pub proof fn law_collection_hands_out_all_fees(
    c: &mut CredenceBond,
    d: &mut CredenceBond,
    call: Call,
    admin: Address,
    salt: Vec<u8>,
    begun: Result<Outcome<i128>, Revert>,
    done: Result<Outcome<i128>, Revert>,
)
    requires
        call_ensures(CredenceBond::collect_fees_begin, (c, &call, admin, &salt), begun),
        call_ensures(CredenceBond::collect_fees, (d, &call, admin, &salt), done),
    ensures
        collects(old(c)@, final(c)@, begun, call, admin, salt@, true),
        collects(old(d)@, final(d)@, done, call, admin, salt@, false),
{
}

/// What the first `k` items of a batch move.
pub open spec fn moved(items: Seq<BatchTransferItem>, k: int) -> int
    decreases k,
{
    if k <= 0 {
        0
    } else {
        moved(items, k - 1) + items[k - 1].amount
    }
}

/// Whether an item of a batch may be paid: a positive amount to someone else, with a sum up to it
/// that is an amount.
pub open spec fn payable(contract: Address, items: Seq<BatchTransferItem>, k: int) -> bool {
    items[k].amount > 0 && items[k].recipient != contract && moved(items, k + 1) <= i128::MAX
}

/// Why an item of a batch may not be paid.
pub open spec fn not_payable(contract: Address, items: Seq<BatchTransferItem>, k: int) -> Revert {
    if items[k].amount <= 0 {
        Revert::AmountNotPositive
    } else if items[k].recipient == contract {
        Revert::SelfTransfer
    } else {
        Revert::TotalAmountOverflow
    }
}

/// What a batch moves is the sum of its amounts.
proof fn lemma_moved(items: Seq<BatchTransferItem>, k: int)
    requires
        0 <= k <= items.len(),
    ensures
        moved(items, k) == total_amount(items, k),
    decreases k,
{
    if k > 0 {
        lemma_moved(items, k - 1);
    }
}

/// What positive items move is positive.
proof fn lemma_moved_positive(items: Seq<BatchTransferItem>, k: int)
    requires
        0 <= k <= items.len(),
        forall|j: int| 0 <= j < k ==> (#[trigger] items[j]).amount > 0,
    ensures
        moved(items, k) >= k,
    decreases k,
{
    if k > 0 {
        lemma_moved_positive(items, k - 1);
    }
}

/// The items of a batch are gone through in order: either all from the `k`th on may be paid, or
/// the first that may not gives the reason.
proof fn lemma_transfers_in_order(contract: Address, items: Seq<BatchTransferItem>, k: int)
    requires
        0 <= k <= items.len(),
        forall|j: int| 0 <= j < k ==> payable(contract, items, j) && (#[trigger] items[j]).amount > 0,
    ensures
        transfers_refusal(contract, items, k) is None ==> forall|j: int|
            0 <= j < items.len() ==> payable(contract, items, j) && (#[trigger] items[j]).amount > 0,
        transfers_refusal(contract, items, k) is Some ==> exists|j: int|
            first_unpayable(contract, items, j) && transfers_refusal(contract, items, k) == Some(
                not_payable(contract, items, j),
            ),
    decreases items.len() - k,
{
    if k < items.len() {
        lemma_moved(items, k + 1);
        lemma_moved_positive(items, k);
        assert(moved(items, k + 1) == moved(items, k) + items[k].amount);
        if transfer_refusal(contract, items, k) is None {
            assert forall|j: int| 0 <= j < k + 1 implies payable(contract, items, j) && (
            #[trigger] items[j]).amount > 0 by {
                if j < k {
                    assert(items[j].amount > 0);
                }
            }
            lemma_transfers_in_order(contract, items, k + 1);
        } else {
            assert(first_unpayable(contract, items, k));
        }
    }
}

/// The first item of a batch that may not be paid.
pub open spec fn first_unpayable(contract: Address, items: Seq<BatchTransferItem>, k: int) -> bool {
    &&& 0 <= k < items.len()
    &&& !payable(contract, items, k)
    &&& forall|j: int| 0 <= j < k ==> payable(contract, items, j) && (#[trigger] items[j]).amount > 0
}

/// Whether all items of a batch may be paid.
pub open spec fn all_payable(contract: Address, items: Seq<BatchTransferItem>) -> bool {
    forall|j: int| 0 <= j < items.len() ==> payable(contract, items, j) && (#[trigger] items[j]).amount > 0
}

/// A batch of transfers goes through whenever the signing administrator asks for it with one to
/// fifty items, each a positive amount to someone other than the contract, whose sum is an
/// amount. Each recipient is paid in order, the event tells number and sum, and the state stays
/// as it was. Otherwise it is refused for the first thing amiss.
pub proof fn law_batch_transfer_pays_each_item(
    c: &mut CredenceBond,
    call: Call,
    admin: Address,
    items: Vec<BatchTransferItem>,
    r: Result<Outcome<u32>, Revert>,
)
    requires
        call_ensures(CredenceBond::batch_transfer, (c, &call, admin, &items), r),
    ensures
        ({
            let s = old(c)@;
            let n = items@.len();
            let sized = 0 < n <= 50;
            let all = all_payable(call.contract, items@);
            &&& final(c)@ == s
            &&& r is Ok <==> by_admin(s, call, admin) && sized && all
            &&& r is Ok ==> {
                let effects = r->Ok_0.effects@;
                &&& r->Ok_0.value == n
                &&& effects.len() == n + 1
                &&& forall|j: int|
                    0 <= j < n ==> #[trigger] effects[j] == (Effect::TransferOut {
                        to: items@[j].recipient,
                        amount: items@[j].amount,
                    })
                &&& effects[n as int] == Effect::Publish(
                    Event::BatchTransfer {
                        admin,
                        count: r->Ok_0.value,
                        total: moved(items@, n as int) as i128,
                    },
                )
                &&& is_amount(moved(items@, n as int))
            }
            &&& !by_admin(s, call, admin) ==> r->Err_0 == not_by_admin(s, call, admin)
            &&& by_admin(s, call, admin) && n == 0 ==> r->Err_0 == coded(ContractError::EmptyBatch)
            &&& by_admin(s, call, admin) && n > 50 ==> r->Err_0 == coded(
                ContractError::BatchTooLarge,
            )
            &&& by_admin(s, call, admin) && sized && !all ==> exists|j: int|
                first_unpayable(call.contract, items@, j) && r->Err_0 == not_payable(
                    call.contract,
                    items@,
                    j,
                )
        }),
{
    let its = items@;
    let n = its.len() as int;
    lemma_transfers_in_order(call.contract, its, 0);
    lemma_moved(its, n);
    if transfers_refusal(call.contract, its, 0) is None {
        lemma_no_transfer_refused(call.contract, its, 0);
        lemma_moved_positive(its, n);
        if n > 0 {
            assert(its[n - 1].amount > 0);
        }
    } else {
        let j = choose|j: int|
            first_unpayable(call.contract, its, j) && transfers_refusal(call.contract, its, 0)
                == Some(not_payable(call.contract, its, j));
        assert(its[j] == its[j]);
        assert(!all_payable(call.contract, its)) by {
            if all_payable(call.contract, its) {
                assert(its[j].amount > 0);
                assert(payable(call.contract, its, j));
            }
        }
    }
}

/// Whether a call is the administrator's, who signed it, paused or not.
pub open spec fn admin_signed(s: State, call: Call, who: Address) -> bool {
    signed(call, who) && s.admin == Some(who)
}

/// Why a call that the administrator did not make and sign is refused, paused or not.
pub open spec fn not_admin_signed(s: State, call: Call, who: Address) -> Revert {
    if !signed(call, who) {
        Revert::Unauthorized
    } else if s.admin is None {
        coded(ContractError::NotInitialized)
    } else {
        coded(ContractError::NotAdmin)
    }
}

/// A drain is scheduled by the administrator while the contract is paused, a day or more ahead,
/// for the time that lies the delay ahead; and it is called off by the administrator at any time.
pub proof fn law_drain_is_scheduled_and_called_off(
    c: &mut CredenceBond,
    d: &mut CredenceBond,
    call: Call,
    admin: Address,
    delay: u64,
    r: Result<Outcome<()>, Revert>,
    q: Result<Outcome<()>, Revert>,
)
    requires
        call_ensures(CredenceBond::schedule_emergency_drain, (c, &call, admin, delay), r),
        call_ensures(CredenceBond::cancel_emergency_drain, (d, &call, admin), q),
    ensures
        ({
            let s = old(c)@;
            comes_to(
                s,
                final(c)@,
                r,
                admin_signed(s, call, admin) && s.paused && delay >= 86_400 && call.now + delay
                    <= u64::MAX,
                if !admin_signed(s, call, admin) {
                    not_admin_signed(s, call, admin)
                } else if !s.paused {
                    coded(ContractError::EmergencyDrainNotPermitted)
                } else if delay < 86_400 {
                    coded(ContractError::TimelockNotReady)
                } else {
                    coded(ContractError::Overflow)
                },
                State { drain_eta: Some((call.now + delay) as u64), ..s },
                (),
                seq![],
            )
        }),
        comes_to(
            old(d)@,
            final(d)@,
            q,
            admin_signed(old(d)@, call, admin),
            not_admin_signed(old(d)@, call, admin),
            State { drain_eta: None, ..old(d)@ },
            (),
            seq![],
        ),
{
}

/// A drain pays a positive amount to the emergency treasury, for the administrator, while the
/// contract is paused and the scheduled time has come; it is put on record under the next number,
/// and nothing else changes.
pub proof fn law_drain_pays_the_treasury(
    c: &mut CredenceBond,
    call: Call,
    admin: Address,
    amount: i128,
    recipient: Address,
    r: Result<Outcome<u64>, Revert>,
)
    requires
        call_ensures(
            CredenceBond::emergency_drain_to_treasury,
            (c, &call, admin, amount, recipient),
            r,
        ),
    ensures
        ({
            let s = old(c)@;
            let id = r->Ok_0.value;
            if admin_signed(s, call, admin) && s.paused && s.emergency_treasury == Some(recipient)
                && s.drain_eta is Some && s.drain_eta->0 <= call.now && amount > 0
                && s.latest_drain_id < u64::MAX {
                &&& r is Ok
                &&& id == s.latest_drain_id + 1
                &&& final(c)@ == (State {
                    latest_drain_id: id,
                    drain_records: s.drain_records.insert(
                        id,
                        DrainRecord { id, admin, recipient, amount, timestamp: call.now },
                    ),
                    ..s
                })
                &&& r->Ok_0.effects@ =~= seq![
                    Effect::TransferOut { to: recipient, amount },
                    Effect::Publish(
                        Event::EmergencyDrain {
                            id,
                            admin,
                            recipient,
                            amount,
                            timestamp: call.now,
                        },
                    ),
                ]
            } else {
                &&& r is Err
                &&& final(c)@ == s
                &&& r->Err_0 == (if !admin_signed(s, call, admin) {
                    not_admin_signed(s, call, admin)
                } else if s.emergency_treasury is None {
                    Revert::EmergencyConfigNotSet
                } else if !s.paused || s.drain_eta is None {
                    coded(ContractError::EmergencyDrainNotPermitted)
                } else if call.now < s.drain_eta->0 {
                    coded(ContractError::TimelockNotReady)
                } else if amount <= 0 {
                    Revert::AmountNotPositive
                } else if s.emergency_treasury != Some(recipient) {
                    coded(ContractError::TreasuryBeneficiaryMismatch)
                } else {
                    coded(ContractError::Overflow)
                })
            }
        }),
{
}

/// The schedule, the latest number and the records of drains are read as they are held.
pub proof fn law_drains_are_read_as_held(
    c: CredenceBond,
    id: u64,
    eta: Option<u64>,
    latest: u64,
    r: Result<DrainRecord, Revert>,
)
    requires
        call_ensures(CredenceBond::get_drain_eta, (&c,), eta),
        call_ensures(CredenceBond::get_latest_drain_id, (&c,), latest),
        call_ensures(CredenceBond::get_drain_record, (&c, id), r),
    ensures
        eta == c.drain_eta,
        latest == c.latest_drain_id,
        r is Ok <==> c.drain_records@.contains_key(id),
        r is Ok ==> r->Ok_0 == c.drain_records@[id],
        r is Err ==> r->Err_0 == Revert::UnknownDrainRecord,
{
}

/// The claims of a user, none where none are held.
pub open spec fn held_claims(s: State, user: Address) -> Seq<PendingClaim> {
    if s.claims.contains_key(user) {
        s.claims[user]
    } else {
        Seq::empty()
    }
}

/// A filter that drops nothing changes nothing, and one that drops something shortens.
proof fn lemma_kept_all(list: Seq<PendingClaim>, keep: spec_fn(PendingClaim) -> bool)
    ensures
        list.filter(keep).len() <= list.len(),
        list.filter(keep).len() == list.len() ==> list.filter(keep) =~= list,
    decreases list.len(),
{
    reveal(Seq::filter);
    if list.len() > 0 {
        lemma_kept_all(list.drop_last(), keep);
    }
}

/// A sweep goes through whenever the contract is not paused, whoever asks. It looks at the first
/// claims of the user, as many as allowed and no more than fifty; of these it keeps those that
/// have no expiry or have not passed it, in their order, and it keeps the rest; it tells how many
/// it dropped, and touches no other user's claims and nothing else.
pub proof fn law_sweep_drops_lapsed_claims(
    c: &mut CredenceBond,
    call: Call,
    user: Address,
    max_iter: u32,
    r: Result<Outcome<u32>, Revert>,
    k: int,
)
    requires
        call_ensures(CredenceBond::expire_claims, (c, &call, user, max_iter), r),
        0 <= k <= max_iter,
        k <= 50,
        k <= held_claims(old(c)@, user).len(),
        k == max_iter || k == 50 || k == held_claims(old(c)@, user).len(),
    ensures
        r is Ok <==> !old(c)@.paused,
        r is Err ==> r->Err_0 == Revert::Paused && final(c)@ == old(c)@,
        r is Ok ==> {
            let s = old(c)@;
            let t = final(c)@;
            let list = held_claims(s, user);
            let kept = list.take(k).filter(
                |claim: PendingClaim| claim.expires_at == 0 || call.now <= claim.expires_at,
            );
            &&& held_claims(t, user) =~= kept + list.skip(k)
            &&& r->Ok_0.value == list.len() - held_claims(t, user).len()
            &&& t == (State { claims: t.claims, ..s })
            &&& forall|other: Address|
                other != user ==> (#[trigger] t.claims.contains_key(other)
                    <==> s.claims.contains_key(other)) && t.claims[other] == s.claims[other]
            &&& r->Ok_0.effects@ =~= seq![
                Effect::Publish(Event::ClaimsExpired { user, count: r->Ok_0.value }),
            ]
        },
{
    let list = held_claims(old(c)@, user);
    let keep = |claim: PendingClaim| claim.expires_at == 0 || call.now <= claim.expires_at;
    assert(live_at(call.now) =~= keep);
    lemma_kept_all(list.take(k), keep);
    assert(list =~= list.take(k) + list.skip(k));
}

/// A page holds, in order, the first claims of the user past the cursor, as many as there are, as
/// are asked for, or as the cap allows; and the cursor to go on from is its last id where the
/// page holds something and more follows, and none otherwise.
pub proof fn law_page_holds_the_first_claims_past_the_cursor(
    c: CredenceBond,
    user: Address,
    start_after: u64,
    limit: u32,
    max_page_limit: u32,
    r: (Vec<PendingClaim>, Option<u64>),
)
    requires
        call_ensures(
            CredenceBond::get_pending_claims_page,
            (&c, &user, start_after, limit, max_page_limit),
            r,
        ),
    ensures
        ({
            let rest = held_claims(c@, user).filter(
                |claim: PendingClaim| claim.claim_id > start_after,
            );
            let page = r.0@;
            &&& page.len() <= rest.len() && page.len() <= limit && page.len() <= max_page_limit
            &&& page.len() == rest.len() || page.len() == limit || page.len() == max_page_limit
            &&& page =~= rest.take(page.len() as int)
            &&& r.1 is Some <==> 0 < page.len() < rest.len()
            &&& r.1 is Some ==> r.1 == Some(page.last().claim_id)
            &&& forall|j: int|
                0 <= j < page.len() ==> (#[trigger] page[j]).claim_id > start_after
        }),
{
    let past = |claim: PendingClaim| claim.claim_id > start_after;
    assert(after_cursor(start_after) =~= past);
    let list = held_claims(c@, user);
    let rest = list.filter(past);
    lemma_filter(list, past);
    assert forall|j: int| 0 <= j < r.0@.len() implies (#[trigger] r.0@[j]).claim_id
        > start_after by {
        assert(r.0@[j] == rest[j]);
        assert(rest.contains(rest[j]));
    }
}

} // verus!
