//! Fees, submissions, transfers, drains and claims.
use crate::address::Address;
use crate::call::Call;
use crate::claims::{
    after_cursor, claims_of, cursor_after, is_expired, live_at, page_length, page_of, pruned,
    scan_length, sweep_next, swept, MAX_SWEEP,
};
use crate::effect::Effect;
use crate::emergency::{
    drain_effects, drain_next, drain_refusal, drainer_refusal, next_record, schedule_refusal,
    DRAIN_TIMELOCK_SECONDS,
};
use crate::error::{ContractError, Revert};
use crate::fees::{collect_next, collect_refusal, deposit_next, deposit_refusal};
use crate::laws::{lemma_paid_out_push, paid_out};
use crate::slashing::{noted, repeat_refusal, submission};
use crate::state::{fresh_state, State};
use crate::transfer::{
    batch_transfer_refusal, total_amount, transfer_refusal, transfers, transfers_refusal,
    MAX_BATCH_TRANSFER_SIZE,
};
use crate::types::{
    BatchTransferItem, DrainRecord, Operation, Parameters, PendingClaim, TierThresholds,
    WeightConfig,
};
use vstd::prelude::*;

verus! {

/// Fees are neither lost nor made: what a deposit adds a collection hands out, with what was
/// there before, and nothing is left to collect after it.
pub proof fn law_fees_are_conserved(
    s: State,
    amount: i128,
    call: Call,
    admin: Address,
    salt: Seq<u8>,
)
    requires
        deposit_refusal(s, amount) is None,
        collect_refusal(deposit_next(s, amount), call, admin, salt) is None,
    ensures
        deposit_next(s, amount).fees == s.fees + amount,
        collect_next(deposit_next(s, amount), admin, salt).fees == 0,
        collect_next(deposit_next(s, amount), admin, salt) == collect_next(s, admin, salt),
{
}

/// The state after the first `k` of a row of deposits.
pub open spec fn deposits_upto(s: State, amounts: Seq<i128>, k: int) -> State
    decreases k,
{
    if k <= 0 {
        s
    } else {
        deposit_next(deposits_upto(s, amounts, k - 1), amounts[k - 1])
    }
}

/// The sum of the first `k` of a row of deposits.
pub open spec fn deposited(amounts: Seq<i128>, k: int) -> int
    decreases k,
{
    if k <= 0 {
        0
    } else {
        deposited(amounts, k - 1) + amounts[k - 1]
    }
}

/// Deposits add up: after any number of them, none of which was refused, the fees have grown by
/// their sum, a collection hands out just that and what was there before, and nothing else has
/// changed.
pub proof fn law_deposits_add_up(s: State, amounts: Seq<i128>, k: int)
    requires
        0 <= k <= amounts.len(),
        forall|j: int|
            0 <= j < k ==> deposit_refusal(
                deposits_upto(s, amounts, j),
                #[trigger] amounts[j],
            ) is None,
    ensures
        deposits_upto(s, amounts, k) == (State {
            fees: (s.fees + deposited(amounts, k)) as i128,
            ..s
        }),
        deposits_upto(s, amounts, k).fees == s.fees + deposited(amounts, k),
        deposited(amounts, k) >= k,
    decreases k,
{
    if k > 0 {
        law_deposits_add_up(s, amounts, k - 1);
        assert(deposit_refusal(deposits_upto(s, amounts, k - 1), amounts[k - 1]) is None);
    }
}

/// A salt is good once for its actor and operation: a submission that carries it again is
/// refused as a duplicate. One of another actor, for another operation or with another salt is
/// not affected, and one without a salt is never refused for it.
pub proof fn law_submissions_are_not_repeated(
    s: State,
    actor: Address,
    operation: Operation,
    salt: Seq<u8>,
    other_actor: Address,
    other_operation: Operation,
    other_salt: Seq<u8>,
)
    ensures
        ({
            let next = noted(s, actor, operation, salt);
            &&& salt.len() > 0 ==> repeat_refusal(next, actor, operation, salt) == Some(
                Revert::Contract(ContractError::DuplicateIdempotencyKey),
            )
            &&& (other_actor != actor || other_operation != operation || other_salt != salt)
                ==> repeat_refusal(next, other_actor, other_operation, other_salt)
                == repeat_refusal(s, other_actor, other_operation, other_salt)
            &&& repeat_refusal(next, actor, operation, Seq::empty()) is None
        }),
{
    let next = noted(s, actor, operation, salt);
    let other = submission(other_actor, other_operation, other_salt);
    if other_actor != actor || other_operation != operation || other_salt != salt {
        assert(other != submission(actor, operation, salt));
    }
}

/// A repeated collection under the same salt is refused as a duplicate.
pub proof fn law_collection_is_not_repeated(
    s: State,
    call: Call,
    admin: Address,
    salt: Seq<u8>,
    later: Call,
)
    requires
        collect_refusal(s, call, admin, salt) is None,
        salt.len() > 0,
        later.has_auth(admin),
    ensures
        collect_refusal(collect_next(s, admin, salt), later, admin, salt) == Some(
            Revert::Contract(ContractError::DuplicateIdempotencyKey),
        ),
{
}

/// In a batch of transfers that is admitted no transfer is refused.
pub(crate) proof fn lemma_no_transfer_refused(contract: Address, items: Seq<BatchTransferItem>, k: int)
    requires
        0 <= k,
        transfers_refusal(contract, items, k) is None,
    ensures
        forall|j: int|
            k <= j < items.len() ==> transfer_refusal(contract, items, j) is None && (
            #[trigger] items[j]).amount > 0,
    decreases items.len() - k,
{
    if k < items.len() {
        lemma_no_transfer_refused(contract, items, k + 1);
    }
}

/// The first transfers of a batch pay out the sum of their amounts.
proof fn lemma_transfers_pay_the_total(items: Seq<BatchTransferItem>, k: int)
    requires
        0 <= k <= items.len(),
    ensures
        paid_out(transfers(items).take(k)) == total_amount(items, k),
    decreases k,
{
    if k > 0 {
        lemma_transfers_pay_the_total(items, k - 1);
        let front = transfers(items).take(k - 1);
        let last = transfers(items)[k - 1];
        assert(transfers(items).take(k) =~= front.push(last));
        lemma_paid_out_push(front, last);
    } else {
        assert(transfers(items).take(0) =~= Seq::<Effect>::empty());
    }
}

/// Amounts that are positive add up to a total that is.
proof fn lemma_total_positive(items: Seq<BatchTransferItem>, k: int)
    requires
        0 <= k <= items.len(),
        forall|j: int| 0 <= j < items.len() ==> (#[trigger] items[j]).amount > 0,
    ensures
        k == 0 ==> total_amount(items, k) == 0,
        k > 0 ==> total_amount(items, k) > 0,
    decreases k,
{
    if k > 0 {
        lemma_total_positive(items, k - 1);
    }
}

/// A batch of transfers that is admitted moves what its event says: it has between one item and
/// the largest number allowed, each pays a positive amount to someone other than the contract,
/// and together they pay the total.
pub proof fn law_batch_transfer_moves_its_total(
    s: State,
    call: Call,
    admin: Address,
    items: Seq<BatchTransferItem>,
    k: int,
)
    requires
        batch_transfer_refusal(s, call, admin, items) is None,
        0 <= k < items.len(),
    ensures
        0 < items.len() <= MAX_BATCH_TRANSFER_SIZE,
        items[k].amount > 0,
        items[k].recipient != call.contract,
        transfers(items)[k] == (Effect::TransferOut {
            to: items[k].recipient,
            amount: items[k].amount,
        }),
        transfers(items).len() == items.len(),
        0 < total_amount(items, items.len() as int) <= i128::MAX,
        paid_out(transfers(items)) == total_amount(items, items.len() as int),
{
    lemma_no_transfer_refused(call.contract, items, 0);
    assert(items[k].amount > 0);
    assert(items[items.len() - 1].amount > 0);
    lemma_total_positive(items, items.len() as int);
    lemma_transfers_pay_the_total(items, items.len() as int);
    assert(transfers(items).take(items.len() as int) =~= transfers(items));
}

/// One bad transfer stops the batch: where a transfer of a batch is refused, so is the batch.
pub proof fn law_batch_transfer_is_all_or_nothing(
    s: State,
    call: Call,
    admin: Address,
    items: Seq<BatchTransferItem>,
    k: int,
)
    requires
        0 <= k < items.len(),
        items[k].amount <= 0 || items[k].recipient == call.contract,
    ensures
        batch_transfer_refusal(s, call, admin, items) is Some,
{
    if batch_transfer_refusal(s, call, admin, items) is None {
        lemma_no_transfer_refused(call.contract, items, 0);
        assert(items[k].amount > 0);
    }
}

/// The audit trail of drains: the ids on record are exactly those from one to the latest, each
/// record carries its own id, and each drained a positive amount.
pub open spec fn trail_complete(s: State) -> bool {
    forall|id: u64|
        #![trigger s.drain_records.contains_key(id)]
        (s.drain_records.contains_key(id) <==> 1 <= id <= s.latest_drain_id) && (
        s.drain_records.contains_key(id) ==> s.drain_records[id].id == id
            && s.drain_records[id].amount > 0)
}

/// The audit trail of a contract that was just deployed is complete.
pub proof fn law_fresh_trail_is_complete(
    thresholds: TierThresholds,
    parameters: Parameters,
    weights: WeightConfig,
)
    ensures
        trail_complete(fresh_state(thresholds, parameters, weights)),
{
}

/// The audit trail only grows: a drain adds a record under the next id, and every record that
/// was there stays as it was.
pub proof fn law_drains_are_recorded(
    s: State,
    call: Call,
    admin: Address,
    amount: i128,
    recipient: Address,
    earlier: u64,
)
    requires
        trail_complete(s),
        drain_refusal(s, call, admin, amount, recipient) is None,
    ensures
        ({
            let rec = next_record(s, call, admin, amount, recipient);
            let next = drain_next(s, rec);
            &&& trail_complete(next)
            &&& rec.id == s.latest_drain_id + 1
            &&& !s.drain_records.contains_key(rec.id)
            &&& next.drain_records[rec.id] == (DrainRecord {
                id: rec.id,
                admin,
                recipient,
                amount,
                timestamp: call.now,
            })
            &&& s.drain_records.contains_key(earlier) ==> next.drain_records.contains_key(earlier)
                && next.drain_records[earlier] == s.drain_records[earlier]
        }),
{
    let rec = next_record(s, call, admin, amount, recipient);
    let next = drain_next(s, rec);
    assert(s.drain_records.contains_key(rec.id) <==> 1 <= rec.id <= s.latest_drain_id);
    assert forall|id: u64|
        #![trigger next.drain_records.contains_key(id)]
        (next.drain_records.contains_key(id) <==> 1 <= id <= next.latest_drain_id) && (
        next.drain_records.contains_key(id) ==> next.drain_records[id].id == id
            && next.drain_records[id].amount > 0) by {
        assert(s.drain_records.contains_key(id) <==> 1 <= id <= s.latest_drain_id);
    }
}

/// The gates of a drain: it is let through only while the contract is paused, for the
/// administrator, to the configured treasury, and it pays out its amount.
pub proof fn law_drain_gates(
    s: State,
    call: Call,
    admin: Address,
    amount: i128,
    recipient: Address,
)
    requires
        drain_refusal(s, call, admin, amount, recipient) is None,
    ensures
        s.paused,
        s.admin == Some(admin),
        call.has_auth(admin),
        s.emergency_treasury == Some(recipient),
        s.drain_eta matches Some(eta) && eta <= call.now,
        paid_out(drain_effects(next_record(s, call, admin, amount, recipient))) == amount,
{
    let rec = next_record(s, call, admin, amount, recipient);
    let out = Effect::TransferOut { to: rec.recipient, amount: rec.amount };
    let e = drain_effects(rec);
    let none = Seq::<Effect>::empty();
    lemma_paid_out_push(none, out);
    lemma_paid_out_push(none.push(out), e[1]);
    assert(e =~= none.push(out).push(e[1]));
}

/// The timelock of a drain: after a drain was scheduled, none is let through for at least a day.
pub proof fn law_drain_waits_a_day(
    s: State,
    call: Call,
    admin: Address,
    delay: u64,
    later: Call,
    who: Address,
    amount: i128,
    recipient: Address,
)
    requires
        schedule_refusal(s, call, admin, delay) is None,
        drain_refusal(
            State { drain_eta: Some((call.now + delay) as u64), ..s },
            later,
            who,
            amount,
            recipient,
        ) is None,
    ensures
        later.now >= call.now + delay,
        later.now - call.now >= DRAIN_TIMELOCK_SECONDS,
{
}

/// A drain that was called off, or was never scheduled, is not let through.
pub proof fn law_drain_needs_a_schedule(
    s: State,
    call: Call,
    admin: Address,
    amount: i128,
    recipient: Address,
)
    requires
        s.drain_eta is None,
    ensures
        drain_refusal(s, call, admin, amount, recipient) is Some,
        drainer_refusal(s, call, admin) is None && s.emergency_treasury is Some ==> drain_refusal(
            s,
            call,
            admin,
            amount,
            recipient,
        ) == Some(Revert::Contract(ContractError::EmergencyDrainNotPermitted)),
{
}

/// What a filter keeps of a list is in the list and passes, and what passes is kept.
pub(crate) proof fn lemma_filter(list: Seq<PendingClaim>, keep: spec_fn(PendingClaim) -> bool)
    ensures
        forall|c: PendingClaim| #[trigger]
            list.filter(keep).contains(c) <==> list.contains(c) && keep(c),
        list.filter(keep).len() <= list.len(),
    decreases list.len(),
{
    reveal(Seq::filter);
    if list.len() > 0 {
        let front = list.drop_last();
        let last = list.last();
        lemma_filter(front, keep);
        assert forall|c: PendingClaim| list.contains(c) <==> front.contains(c) || c == last by {
            if list.contains(c) {
                let i = choose|i: int| 0 <= i < list.len() && list[i] == c;
                if i < front.len() {
                    assert(front[i] == c);
                }
            }
            if front.contains(c) {
                let i = choose|i: int| 0 <= i < front.len() && front[i] == c;
                assert(list[i] == c);
            }
            assert(list[list.len() - 1] == last);
        }
        let kept = front.filter(keep);
        assert forall|c: PendingClaim| kept.push(last).contains(c) <==> kept.contains(c) || c
            == last by {
            let all = kept.push(last);
            if all.contains(c) {
                let i = choose|i: int| 0 <= i < all.len() && all[i] == c;
                if i < kept.len() {
                    assert(kept[i] == c);
                }
            }
            if kept.contains(c) {
                let i = choose|i: int| 0 <= i < kept.len() && kept[i] == c;
                assert(all[i] == c);
            }
            assert(all[kept.len() as int] == last);
        }
        assert forall|c: PendingClaim| #[trigger]
            list.filter(keep).contains(c) <==> list.contains(c) && keep(c) by {
            assert(kept.contains(c) <==> front.contains(c) && keep(c));
            assert(kept.push(last).contains(c) <==> kept.contains(c) || c == last);
            assert(list.contains(c) <==> front.contains(c) || c == last);
        }
    }
}

/// A sweep is bounded, and prunes only what lapsed: it removes no more claims than it was
/// allowed to scan, and every claim that has no expiry, or has not reached it, stays.
pub proof fn law_sweep_prunes_only_lapsed_claims(
    list: Seq<PendingClaim>,
    now: u64,
    max_iter: u32,
    c: PendingClaim,
)
    requires
        list.contains(c),
    ensures
        ({
            let k = scan_length(list, max_iter);
            &&& 0 <= pruned(list, now, k) <= k
            &&& k <= max_iter && k <= MAX_SWEEP && k <= list.len()
            &&& swept(list, now, k).len() == list.len() - pruned(list, now, k)
            &&& !is_expired(c, now) ==> swept(list, now, k).contains(c)
            &&& c.expires_at == 0 ==> swept(list, now, k).contains(c)
        }),
{
    let k = scan_length(list, max_iter);
    let head = list.take(k);
    let tail = list.skip(k);
    let kept = head.filter(live_at(now));
    lemma_filter(head, live_at(now));
    assert(swept(list, now, k) == kept + tail);
    if !is_expired(c, now) {
        let i = choose|i: int| 0 <= i < list.len() && list[i] == c;
        if i < k {
            assert(head[i] == c);
            assert(kept.contains(c));
            let j = choose|j: int| 0 <= j < kept.len() && kept[j] == c;
            assert((kept + tail)[j] == c);
        } else {
            assert(tail[i - k] == c);
            assert((kept + tail)[kept.len() + i - k] == c);
        }
    }
}

/// A sweep makes nothing up, and clears what it scans: each claim that is left was there before,
/// and where the whole list is scanned, no lapsed claim is left.
pub proof fn law_sweep_leaves_live_claims(
    list: Seq<PendingClaim>,
    now: u64,
    max_iter: u32,
    c: PendingClaim,
)
    requires
        swept(list, now, scan_length(list, max_iter)).contains(c),
    ensures
        list.contains(c),
        scan_length(list, max_iter) == list.len() ==> !is_expired(c, now),
{
    let k = scan_length(list, max_iter);
    let head = list.take(k);
    let tail = list.skip(k);
    let kept = head.filter(live_at(now));
    lemma_filter(head, live_at(now));
    let all = kept + tail;
    let i = choose|i: int| 0 <= i < all.len() && all[i] == c;
    if i < kept.len() {
        assert(kept[i] == c);
        assert(kept.contains(c));
        let j = choose|j: int| 0 <= j < head.len() && head[j] == c;
        assert(list[j] == c);
    } else {
        assert(tail[i - kept.len()] == c);
        assert(list[k + i - kept.len()] == c);
    }
}

/// A list of claims whose ids increase.
pub open spec fn ids_increase(list: Seq<PendingClaim>) -> bool {
    forall|i: int, j: int|
        0 <= i < j < list.len() ==> (#[trigger] list[i]).claim_id < (#[trigger] list[j]).claim_id
}

/// A filter keeps the ids of a list increasing.
proof fn lemma_filter_increases(list: Seq<PendingClaim>, keep: spec_fn(PendingClaim) -> bool)
    requires
        ids_increase(list),
    ensures
        ids_increase(list.filter(keep)),
    decreases list.len(),
{
    reveal(Seq::filter);
    if list.len() > 0 {
        let front = list.drop_last();
        let last = list.last();
        assert forall|i: int, j: int| 0 <= i < j < front.len() implies (
        #[trigger] front[i]).claim_id < (#[trigger] front[j]).claim_id by {
            assert(list[i].claim_id < list[j].claim_id);
        }
        lemma_filter_increases(front, keep);
        lemma_filter(front, keep);
        let kept = front.filter(keep);
        let all = list.filter(keep);
        assert forall|i: int, j: int| 0 <= i < j < all.len() implies (
        #[trigger] all[i]).claim_id < (#[trigger] all[j]).claim_id by {
            if j < kept.len() {
                assert(kept[i].claim_id < kept[j].claim_id);
            } else {
                assert(kept.contains(kept[i]));
                let k = choose|k: int| 0 <= k < front.len() && front[k] == kept[i];
                assert(list[k].claim_id < list[list.len() - 1].claim_id);
            }
        }
    }
}

/// A sweep keeps the order of the claims.
pub proof fn law_sweep_keeps_the_order(list: Seq<PendingClaim>, now: u64, max_iter: u32)
    requires
        ids_increase(list),
    ensures
        ids_increase(swept(list, now, scan_length(list, max_iter))),
{
    let n = scan_length(list, max_iter);
    let head = list.take(n);
    let tail = list.skip(n);
    assert forall|i: int, j: int| 0 <= i < j < head.len() implies (#[trigger] head[i]).claim_id
        < (#[trigger] head[j]).claim_id by {
        assert(list[i].claim_id < list[j].claim_id);
    }
    lemma_filter_increases(head, live_at(now));
    lemma_filter(head, live_at(now));
    let kept = head.filter(live_at(now));
    let all = kept + tail;
    assert forall|i: int, j: int| 0 <= i < j < all.len() implies (#[trigger] all[i]).claim_id < (
    #[trigger] all[j]).claim_id by {
        if j < kept.len() {
            assert(kept[i].claim_id < kept[j].claim_id);
        } else if i < kept.len() {
            assert(kept.contains(kept[i]));
            let k = choose|k: int| 0 <= k < head.len() && head[k] == kept[i];
            assert(list[k].claim_id < list[n + j - kept.len()].claim_id);
        } else {
            assert(list[n + i - kept.len()].claim_id < list[n + j - kept.len()].claim_id);
        }
    }
}

/// In a list of claims whose ids increase, those after a cursor are its end.
proof fn lemma_after_cursor(list: Seq<PendingClaim>, start_after: u64) -> (k: int)
    requires
        ids_increase(list),
    ensures
        0 <= k <= list.len(),
        list.filter(after_cursor(start_after)) =~= list.skip(k),
        forall|i: int| 0 <= i < k ==> (#[trigger] list[i]).claim_id <= start_after,
        forall|i: int| k <= i < list.len() ==> (#[trigger] list[i]).claim_id > start_after,
    decreases list.len(),
{
    reveal(Seq::filter);
    if list.len() == 0 {
        0
    } else {
        let front = list.drop_last();
        assert(ids_increase(front)) by {
            assert forall|i: int, j: int| 0 <= i < j < front.len() implies (
            #[trigger] front[i]).claim_id < (#[trigger] front[j]).claim_id by {
                assert(list[i].claim_id < list[j].claim_id);
            }
        }
        let k = lemma_after_cursor(front, start_after);
        assert forall|i: int| 0 <= i < front.len() implies front[i] == #[trigger] list[i] by {}
        assert(list.last() == list[list.len() - 1]);
        if list.last().claim_id > start_after {
            assert(list.skip(k) =~= front.skip(k).push(list.last()));
            k
        } else {
            if k < front.len() {
                assert(front[k].claim_id > start_after);
                assert(list[k].claim_id < list[list.len() - 1].claim_id);
            }
            assert(list.filter(after_cursor(start_after)) =~= front.filter(
                after_cursor(start_after),
            ));
            assert(front.skip(k) =~= Seq::<PendingClaim>::empty());
            assert(list.skip(list.len() as int) =~= Seq::<PendingClaim>::empty());
            list.len() as int
        }
    }
}

/// A page is bounded and ordered, and its cursor is its last id: it holds no more claims than
/// asked for, all of them past the cursor it was read from, with increasing ids; and there is a
/// cursor after it exactly where it is not empty and more claims follow.
pub proof fn law_pages_are_bounded_and_ordered(
    list: Seq<PendingClaim>,
    start_after: u64,
    n: int,
)
    requires
        ids_increase(list),
        0 <= n,
    ensures
        ({
            let page = page_of(list, start_after, n);
            &&& page.len() <= n
            &&& ids_increase(page)
            &&& forall|i: int|
                0 <= i < page.len() ==> (#[trigger] page[i]).claim_id > start_after
                    && list.contains(page[i])
            &&& match cursor_after(list, start_after, n) {
                Some(cursor) => page.len() > 0 && cursor == page.last().claim_id && page.len()
                    < list.filter(after_cursor(start_after)).len(),
                None => page.len() == 0 || page == list.filter(after_cursor(start_after)),
            }
        }),
{
    let k = lemma_after_cursor(list, start_after);
    let page = page_of(list, start_after, n);
    assert forall|i: int, j: int| 0 <= i < j < page.len() implies (#[trigger] page[i]).claim_id < (
    #[trigger] page[j]).claim_id by {
        assert(page[i] == list[k + i]);
        assert(page[j] == list[k + j]);
    }
    assert forall|i: int| 0 <= i < page.len() implies (#[trigger] page[i]).claim_id > start_after
        && list.contains(page[i]) by {
        assert(page[i] == list[k + i]);
    }
}

/// Following the cursor reads everything once: a page and what follows its cursor are, together
/// and in order, what followed the cursor before it; and where there is no cursor after a page
/// that was asked for, nothing follows it.
pub proof fn law_pages_cover_the_list(list: Seq<PendingClaim>, start_after: u64, n: int)
    requires
        ids_increase(list),
        0 < n,
    ensures
        ({
            let rest = list.filter(after_cursor(start_after));
            let page = page_of(list, start_after, n);
            match cursor_after(list, start_after, n) {
                Some(cursor) => rest == page + list.filter(after_cursor(cursor)) && page.len() == n
                    && cursor > start_after,
                None => page == rest,
            }
        }),
{
    let k = lemma_after_cursor(list, start_after);
    let rest = list.filter(after_cursor(start_after));
    let page = page_of(list, start_after, n);
    match cursor_after(list, start_after, n) {
        Some(cursor) => {
            let m = lemma_after_cursor(list, cursor);
            assert(page.last() == list[k + n - 1]);
            if m < k + n {
                assert(list[k + n - 1].claim_id > cursor);
            }
            if m > k + n {
                assert(list[k + n].claim_id <= cursor);
                assert(list[k + n - 1].claim_id < list[k + n].claim_id);
            }
            assert(rest =~= page + list.filter(after_cursor(cursor)));
        },
        None => {},
    }
}

/// A cursor moves on: it lies after the one that its page was read from.
pub proof fn law_cursors_move_on(list: Seq<PendingClaim>, start_after: u64, n: int)
    requires
        0 <= n,
    ensures
        cursor_after(list, start_after, n) matches Some(cursor) ==> cursor > start_after,
{
    let rest = list.filter(after_cursor(start_after));
    let page = page_of(list, start_after, n);
    if 0 < page.len() < rest.len() {
        lemma_filter(list, after_cursor(start_after));
        assert(page.last() == rest[page.len() - 1]);
        assert(rest.contains(page.last()));
    }
}

/// The pages that are read from a cursor on, each cursor fed back until there is none.
pub open spec fn pages_from(list: Seq<PendingClaim>, start_after: u64, n: nat) -> Seq<
    Seq<PendingClaim>,
>
    decreases u64::MAX - start_after,
{
    match cursor_after(list, start_after, n as int) {
        Some(cursor) => {
            proof {
                law_cursors_move_on(list, start_after, n as int);
            }
            seq![page_of(list, start_after, n as int)] + pages_from(list, cursor, n)
        },
        None => seq![page_of(list, start_after, n as int)],
    }
}

/// What the pages that are read from a cursor on hold, joined: everything past the cursor, in
/// order, in pages of no more than `n`.
pub proof fn law_pages_join_to_the_rest(list: Seq<PendingClaim>, start_after: u64, n: nat)
    requires
        ids_increase(list),
        0 < n,
    ensures
        pages_from(list, start_after, n).flatten() == list.filter(after_cursor(start_after)),
        forall|i: int|
            0 <= i < pages_from(list, start_after, n).len() ==> (
            #[trigger] pages_from(list, start_after, n)[i]).len() <= n,
    decreases u64::MAX - start_after,
{
    let page = page_of(list, start_after, n as int);
    law_cursors_move_on(list, start_after, n as int);
    law_pages_cover_the_list(list, start_after, n as int);
    match cursor_after(list, start_after, n as int) {
        Some(cursor) => {
            let rest = pages_from(list, cursor, n);
            law_pages_join_to_the_rest(list, cursor, n);
            let all = seq![page] + rest;
            assert(all.first() == page);
            assert(all.drop_first() =~= rest);
            assert(all.flatten() == page + rest.flatten());
            assert forall|i: int| 0 <= i < all.len() implies (#[trigger] all[i]).len() <= n by {
                if i > 0 {
                    assert(all[i] == rest[i - 1]);
                }
            }
        },
        None => {
            let all = seq![page];
            assert(all.first() == page);
            assert(all.drop_first() =~= Seq::<Seq<PendingClaim>>::empty());
            assert(all.flatten() == page + Seq::<Seq<PendingClaim>>::empty().flatten());
            assert(all.flatten() =~= page);
        },
    }
}

/// Reading on from the start reads everything: the pages of a user's claims that are read from
/// cursor zero, each cursor fed back, join to the whole list, each claim once and in the order
/// of the ids; and none is longer than the limit or the cap on it. A claim with id zero, which
/// no cursor precedes, is left out.
pub proof fn law_pages_join_to_all_claims(
    s: State,
    user: Address,
    limit: u32,
    max_page_limit: u32,
    i: int,
    j: int,
)
    requires
        ids_increase(claims_of(s, user)),
        claims_of(s, user).len() > 0 ==> claims_of(s, user)[0].claim_id > 0,
        0 < limit,
        0 < max_page_limit,
    ensures
        ({
            let n = page_length(limit, max_page_limit) as nat;
            let pages = pages_from(claims_of(s, user), 0, n);
            let joined = pages.flatten();
            &&& joined == claims_of(s, user)
            &&& 0 <= i < j < joined.len() ==> joined[i].claim_id < joined[j].claim_id
            &&& 0 <= i < pages.len() ==> pages[i].len() <= limit && pages[i].len()
                <= max_page_limit
        }),
{
    let list = claims_of(s, user);
    let n = page_length(limit, max_page_limit) as nat;
    law_pages_join_to_the_rest(list, 0, n);
    let k = lemma_after_cursor(list, 0);
    if k > 0 {
        assert(list[0].claim_id <= 0);
    }
    assert(list.skip(0) =~= list);
    if 0 <= i < pages_from(list, 0, n).len() {
        assert(pages_from(list, 0, n)[i].len() <= n);
    }
}

/// The claims of one user are no business of another's sweep.
pub proof fn law_sweeps_keep_to_their_user(
    s: State,
    now: u64,
    user: Address,
    max_iter: u32,
    other: Address,
)
    requires
        other != user,
    ensures
        claims_of(sweep_next(s, now, user, max_iter), other) == claims_of(s, other),
        claims_of(sweep_next(s, now, user, max_iter), user) == swept(
            claims_of(s, user),
            now,
            scan_length(claims_of(s, user), max_iter),
        ),
{
    let list = claims_of(s, user);
    let k = scan_length(list, max_iter);
    if pruned(list, now, k) <= 0 {
        lemma_all_kept(list.take(k), live_at(now));
        assert(swept(list, now, k) =~= list);
    }
}

/// A filter that drops nothing changes nothing.
proof fn lemma_all_kept(list: Seq<PendingClaim>, keep: spec_fn(PendingClaim) -> bool)
    requires
        list.filter(keep).len() >= list.len(),
    ensures
        list.filter(keep) =~= list,
    decreases list.len(),
{
    reveal(Seq::filter);
    if list.len() > 0 {
        lemma_filter(list.drop_last(), keep);
        lemma_all_kept(list.drop_last(), keep);
    }
}

} // verus!
