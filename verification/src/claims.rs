//! Pending pull-payment claims.
use crate::address::Address;
use crate::call::Call;
use crate::effect::{Effect, Event, Outcome};
use crate::error::Revert;
use crate::state::{pause_refusal, transacts, CredenceBond, State};
use crate::table::get_or;
use crate::types::PendingClaim;
use vstd::prelude::*;

verus! {

/// Most claims that one sweep scans.
pub const MAX_SWEEP: u32 = 50;

/// The claims of a user, in the order of their ids.
pub open spec fn claims_of(s: State, user: Address) -> Seq<PendingClaim> {
    get_or(s.claims, user, Seq::empty())
}

/// Whether a claim is past its expiry. A claim without an expiry never is.
pub open spec fn is_expired(c: PendingClaim, now: u64) -> bool {
    c.expires_at != 0 && now > c.expires_at
}

/// The claims that are not past their expiry.
pub open spec fn live_at(now: u64) -> spec_fn(PendingClaim) -> bool {
    |c: PendingClaim| !is_expired(c, now)
}

/// How many claims a sweep scans.
pub open spec fn scan_length(list: Seq<PendingClaim>, max_iter: u32) -> int {
    let cap = if max_iter < MAX_SWEEP {
        max_iter
    } else {
        MAX_SWEEP
    };
    if cap < list.len() {
        cap as int
    } else {
        list.len() as int
    }
}

/// What a sweep of the first `k` claims leaves.
pub open spec fn swept(list: Seq<PendingClaim>, now: u64, k: int) -> Seq<PendingClaim> {
    list.take(k).filter(live_at(now)) + list.skip(k)
}

/// How many claims a sweep of the first `k` claims removes.
pub open spec fn pruned(list: Seq<PendingClaim>, now: u64, k: int) -> int {
    k - list.take(k).filter(live_at(now)).len()
}

/// The state after a sweep. Where nothing is removed, nothing is written.
pub open spec fn sweep_next(s: State, now: u64, user: Address, max_iter: u32) -> State {
    let list = claims_of(s, user);
    let k = scan_length(list, max_iter);
    if pruned(list, now, k) > 0 {
        State { claims: s.claims.insert(user, swept(list, now, k)), ..s }
    } else {
        s
    }
}

/// The claims after a cursor.
pub open spec fn after_cursor(start_after: u64) -> spec_fn(PendingClaim) -> bool {
    |c: PendingClaim| c.claim_id > start_after
}

/// A page of at most `n` claims of a list that follow a cursor.
pub open spec fn page_of(list: Seq<PendingClaim>, start_after: u64, n: int) -> Seq<PendingClaim> {
    let rest = list.filter(after_cursor(start_after));
    if n < rest.len() {
        rest.take(n)
    } else {
        rest
    }
}

/// The cursor after a page: its last id, or nothing where no claim follows it.
pub open spec fn cursor_after(
    list: Seq<PendingClaim>,
    start_after: u64,
    n: int,
) -> Option<u64> {
    let page = page_of(list, start_after, n);
    if 0 < page.len() < list.filter(after_cursor(start_after)).len() {
        Some(page.last().claim_id)
    } else {
        None
    }
}

/// The smaller of two limits.
pub open spec fn page_length(limit: u32, max_page_limit: u32) -> int {
    if limit < max_page_limit {
        limit as int
    } else {
        max_page_limit as int
    }
}

impl CredenceBond {
    /// Permissionless, bounded sweep to expire stale pending claims.
    ///
    /// Scans up to `max_iter` pending claims of the user (at most [`MAX_SWEEP`]), removes those
    /// past their expiry, and returns the count pruned. Claims with no expiry are never removed.
    pub fn expire_claims(&mut self, call: &Call, user: Address, max_iter: u32) -> (r: Result<
        Outcome<u32>,
        Revert,
    >)
        ensures
            ({
                let list = claims_of(old(self)@, user);
                let count = pruned(list, call.now, scan_length(list, max_iter)) as u32;
                transacts(
                    old(self)@,
                    final(self)@,
                    r,
                    pause_refusal(old(self)@),
                    sweep_next(old(self)@, call.now, user, max_iter),
                    count,
                    seq![Effect::Publish(Event::ClaimsExpired { user, count })],
                )
            }),
    {
        self.require_not_paused()?;
        let cap: u32 = if max_iter < MAX_SWEEP {
            max_iter
        } else {
            MAX_SWEEP
        };
        let mut kept: Vec<PendingClaim> = Vec::new();
        let mut count: u32 = 0;
        match self.claims.get(&user) {
            None => {
                proof {
                    reveal(Seq::filter);
                    assert(Seq::<PendingClaim>::empty().take(0) =~= Seq::<PendingClaim>::empty());
                }
            },
            Some(list) => {
                let n: usize = list.len();
                let k: usize = if (cap as usize) < n {
                    cap as usize
                } else {
                    n
                };
                let mut i: usize = 0;
                proof {
                    reveal(Seq::filter);
                    assert(list@.take(0) =~= Seq::<PendingClaim>::empty());
                }
                while i < k
                    invariant
                        i <= k <= n,
                        k <= 50,
                        n == list@.len(),
                        kept@ == list@.take(i as int).filter(live_at(call.now)),
                        count + kept@.len() == i,
                    decreases k - i,
                {
                    let c = list[i];
                    proof {
                        reveal(Seq::filter);
                        assert(list@.take(i + 1).drop_last() =~= list@.take(i as int));
                    }
                    if c.expires_at != 0 && call.now > c.expires_at {
                        count += 1;
                    } else {
                        kept.push(c);
                    }
                    i += 1;
                }
                let ghost scanned = kept@;
                while i < n
                    invariant
                        k <= i <= n,
                        n == list@.len(),
                        kept@ =~= scanned + list@.subrange(k as int, i as int),
                    decreases n - i,
                {
                    kept.push(list[i]);
                    i += 1;
                }
                assert(list@.subrange(k as int, n as int) =~= list@.skip(k as int));
            },
        }
        if count > 0 {
            self.claims.insert(user, kept);
        }
        Ok(
            Outcome {
                value: count,
                effects: vec![Effect::Publish(Event::ClaimsExpired { user, count })],
            },
        )
    }

    /// Cursor-paginated read of a user's pending claims.
    ///
    /// Returns at most `limit` claims (at most `max_page_limit`) with `claim_id > start_after`,
    /// and the cursor with which to resume, or `None` once the set is exhausted.
    pub fn get_pending_claims_page(
        &self,
        user: &Address,
        start_after: u64,
        limit: u32,
        max_page_limit: u32,
    ) -> (r: (Vec<PendingClaim>, Option<u64>))
        ensures
            r.0@ == page_of(
                claims_of(self@, *user),
                start_after,
                page_length(limit, max_page_limit),
            ),
            r.1 == cursor_after(
                claims_of(self@, *user),
                start_after,
                page_length(limit, max_page_limit),
            ),
    {
        let size: u32 = if limit < max_page_limit {
            limit
        } else {
            max_page_limit
        };
        let mut page: Vec<PendingClaim> = Vec::new();
        let mut more: bool = false;
        match self.claims.get(user) {
            None => {
                proof {
                    reveal(Seq::filter);
                }
            },
            Some(list) => {
                let n: usize = list.len();
                let mut i: usize = 0;
                let ghost pred = after_cursor(start_after);
                proof {
                    reveal(Seq::filter);
                    assert(list@.take(0) =~= Seq::<PendingClaim>::empty());
                }
                while i < n
                    invariant
                        i <= n,
                        n == list@.len(),
                        pred == after_cursor(start_after),
                        page@.len() <= size,
                        more ==> page@.len() == size,
                        page@.len() <= list@.take(i as int).filter(pred).len(),
                        page@ == list@.take(i as int).filter(pred).take(page@.len() as int),
                        more == (list@.take(i as int).filter(pred).len() > page@.len()),
                    decreases n - i,
                {
                    let c = list[i];
                    let ghost before = list@.take(i as int).filter(pred);
                    proof {
                        reveal(Seq::filter);
                        assert(list@.take(i + 1).drop_last() =~= list@.take(i as int));
                    }
                    if c.claim_id > start_after {
                        assert(list@.take(i + 1).filter(pred) == before.push(c));
                        if page.len() < size as usize {
                            assert(before.take(before.len() as int) =~= before);
                            page.push(c);
                            assert(page@ =~= before.push(c).take(page@.len() as int));
                        } else {
                            more = true;
                            assert(page@ =~= before.push(c).take(page@.len() as int));
                        }
                    }
                    i += 1;
                }
                proof {
                    assert(list@.take(n as int) =~= list@);
                    let rest = list@.filter(pred);
                    assert(rest.take(rest.len() as int) =~= rest);
                }
            },
        }
        let next: Option<u64> = if more && page.len() > 0 {
            Some(page[page.len() - 1].claim_id)
        } else {
            None
        };
        (page, next)
    }
}

} // verus!
