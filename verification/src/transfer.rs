//! Transfers to several recipients at once.
use crate::address::Address;
use crate::amount::fits_amount;
use crate::attestation::{batch_size_refusal, verify_batch_size};
use crate::call::Call;
use crate::effect::{answers, first_of, refuse_if, Effect, Event, Outcome};
use crate::error::Revert;
use crate::state::{admin_gate_refusal, transacts, CredenceBond, State};
use crate::types::BatchTransferItem;
use vstd::prelude::*;

verus! {

/// Maximum number of transfers allowed in a single batch operation.
pub const MAX_BATCH_TRANSFER_SIZE: u32 = 50;

/// The sum of the first `k` amounts.
pub open spec fn total_amount(items: Seq<BatchTransferItem>, k: int) -> int
    decreases k,
{
    if k <= 0 {
        0
    } else {
        total_amount(items, k - 1) + items[k - 1].amount
    }
}

/// Why the `k`th transfer of a batch is refused.
pub open spec fn transfer_refusal(
    contract: Address,
    items: Seq<BatchTransferItem>,
    k: int,
) -> Option<Revert> {
    first_of(
        refuse_if(items[k].amount <= 0, Revert::AmountNotPositive),
        first_of(
            refuse_if(items[k].recipient == contract, Revert::SelfTransfer),
            refuse_if(!fits_amount(total_amount(items, k + 1)), Revert::TotalAmountOverflow),
        ),
    )
}

/// The first reason for which a transfer of a batch, from the `k`th on, is refused.
pub open spec fn transfers_refusal(
    contract: Address,
    items: Seq<BatchTransferItem>,
    k: int,
) -> Option<Revert>
    decreases items.len() - k,
{
    if 0 <= k < items.len() {
        first_of(
            transfer_refusal(contract, items, k),
            transfers_refusal(contract, items, k + 1),
        )
    } else {
        None
    }
}

/// Why a batch of transfers is refused.
pub open spec fn batch_transfer_refusal(
    s: State,
    call: Call,
    admin: Address,
    items: Seq<BatchTransferItem>,
) -> Option<Revert> {
    first_of(
        admin_gate_refusal(s, call, admin),
        first_of(
            batch_size_refusal(items.len(), MAX_BATCH_TRANSFER_SIZE as nat),
            transfers_refusal(call.contract, items, 0),
        ),
    )
}

/// The transfers of a batch, in its order.
pub open spec fn transfers(items: Seq<BatchTransferItem>) -> Seq<Effect> {
    Seq::new(
        items.len(),
        |i: int| Effect::TransferOut { to: items[i].recipient, amount: items[i].amount },
    )
}

/// The total of a batch in which no transfer is refused.
fn verify_transfers(contract: &Address, items: &Vec<BatchTransferItem>) -> (r: Result<
    i128,
    Revert,
>)
    ensures
        answers(r, transfers_refusal(*contract, items@, 0)),
        r matches Ok(total) ==> total == total_amount(items@, items@.len() as int),
{
    let n: usize = items.len();
    let mut i: usize = 0;
    let mut total: i128 = 0;
    while i < n
        invariant
            i <= n,
            n == items@.len(),
            total == total_amount(items@, i as int),
            transfers_refusal(*contract, items@, 0) == transfers_refusal(
                *contract,
                items@,
                i as int,
            ),
        decreases n - i,
    {
        if items[i].amount <= 0 {
            return Err(Revert::AmountNotPositive);
        }
        if items[i].recipient == *contract {
            return Err(Revert::SelfTransfer);
        }
        assert(total_amount(items@, i + 1) == total + items@[i as int].amount);
        match total.checked_add(items[i].amount) {
            None => return Err(Revert::TotalAmountOverflow),
            Some(t) => {
                total = t;
            },
        }
        i += 1;
    }
    Ok(total)
}

impl CredenceBond {
    /// Transfer tokens to multiple recipients in a single atomic operation.
    ///
    /// All transfers are validated before any are executed. If any validation fails, the entire
    /// batch is rejected. Returns the number of transfers.
    pub fn batch_transfer(
        &mut self,
        call: &Call,
        admin: Address,
        items: &Vec<BatchTransferItem>,
    ) -> (r: Result<Outcome<u32>, Revert>)
        ensures
            transacts(
                old(self)@,
                final(self)@,
                r,
                batch_transfer_refusal(old(self)@, *call, admin, items@),
                old(self)@,
                items@.len() as u32,
                transfers(items@).push(
                    Effect::Publish(
                        Event::BatchTransfer {
                            admin,
                            count: items@.len() as u32,
                            total: total_amount(items@, items@.len() as int) as i128,
                        },
                    ),
                ),
            ),
    {
        self.require_admin_gate(call, &admin)?;
        let n: usize = items.len();
        verify_batch_size(n, MAX_BATCH_TRANSFER_SIZE)?;
        let total: i128 = verify_transfers(&call.contract, items)?;
        let mut effects: Vec<Effect> = Vec::new();
        let mut i: usize = 0;
        while i < n
            invariant
                i <= n,
                n == items@.len(),
                effects@ =~= transfers(items@).take(i as int),
            decreases n - i,
        {
            effects.push(Effect::TransferOut { to: items[i].recipient, amount: items[i].amount });
            i += 1;
        }
        assert(transfers(items@).take(n as int) =~= transfers(items@));
        let count: u32 = n as u32;
        effects.push(Effect::Publish(Event::BatchTransfer { admin, count, total }));
        Ok(Outcome { value: count, effects })
    }
}

} // verus!
