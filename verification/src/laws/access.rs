//! Who may call, and when: the pause, the signatures, the administrator and the lock.
use crate::address::Address;
use crate::admin::{initialize_refusal, pauser_refusal, transfer_admin_refusal};
use crate::attestation::{add_refusal, batch_refusal, revoke_refusal, WeighedItem};
use crate::call::Call;
use crate::emergency::{drain_refusal, drainer_refusal, schedule_refusal};
use crate::error::{ContractError, Revert, Verdict};
use crate::fees::{collect_refusal, deposit_refusal};
use crate::lifecycle::{
    close_refusal, create_begin_refusal, early_refusal, extend_refusal, request_refusal,
    top_up_begin_refusal, withdraw_refusal,
};
use crate::parameters::parameter_refusal;
use crate::slashing::{liquidate_refusal, slash_bond_refusal, slash_refusal};
use crate::state::{
    admin_gate_refusal, admin_refusal, gate_refusal, lock_refusal, pause_refusal,
    standing_admin_refusal, State,
};
use crate::transfer::batch_transfer_refusal;
use crate::types::BatchTransferItem;
use vstd::prelude::*;

verus! {

/// The arguments of a call, whichever entry point it goes to.
pub struct Request {
    pub call: Call,
    /// The identity, attester or administrator in whose name the call is made.
    pub who: Address,
    /// The subject of an attestation, or the new holder of a role.
    pub other: Address,
    pub amount: i128,
    pub penalty: i128,
    pub duration: u64,
    pub id: u64,
    pub nonce: u64,
    /// How many claims to scan.
    pub limit: u32,
    pub data: Seq<u8>,
    pub weight: Result<u32, Revert>,
    pub verdict: Verdict,
    pub items: Seq<WeighedItem>,
    pub transfers: Seq<BatchTransferItem>,
}

/// While the contract is paused, every entry point that changes it is refused for that reason,
/// whatever its arguments, except pausing, unpausing and the emergency drain.
pub proof fn law_pause_stops_everything(s: State, q: Request)
    requires
        s.paused,
    ensures
        initialize_refusal(s, q.call, q.who) == Some(Revert::Paused),
        admin_gate_refusal(s, q.call, q.who) == Some(Revert::Paused),
        standing_admin_refusal(s, q.call) == Some(Revert::Paused),
        transfer_admin_refusal(s, q.call, q.who, q.other) == Some(Revert::Paused),
        parameter_refusal(s, q.call, q.who, q.verdict) == Some(Revert::Paused),
        pause_refusal(s) == Some(Revert::Paused),
        add_refusal(s, q.call, q.who, q.other, q.data, q.nonce, q.weight) == Some(Revert::Paused),
        batch_refusal(s, q.call, q.other, q.items) == Some(Revert::Paused),
        revoke_refusal(s, q.call, q.who, q.id, q.nonce) == Some(Revert::Paused),
        create_begin_refusal(s, q.call, q.who) == Some(Revert::Paused),
        top_up_begin_refusal(s, q.call, q.who) == Some(Revert::Paused),
        extend_refusal(s, q.call, q.who, q.duration) == Some(Revert::Paused),
        request_refusal(s, q.call, q.who) == Some(Revert::Paused),
        gate_refusal(s, q.call, q.who) == Some(Revert::Paused),
        withdraw_refusal(s, q.call, q.who, q.amount) == Some(Revert::Paused),
        early_refusal(s, q.call, q.who, q.amount, q.penalty) == Some(Revert::Paused),
        close_refusal(s, q.call, q.who) == Some(Revert::Paused),
        slash_bond_refusal(s, q.call, q.who, q.amount, q.data) == Some(Revert::Paused),
        slash_refusal(s, q.call, q.who, q.amount, q.verdict) == Some(Revert::Paused),
        liquidate_refusal(s, q.call, q.who) == Some(Revert::Paused),
        deposit_refusal(s, q.amount) == Some(Revert::Paused),
        collect_refusal(s, q.call, q.who, q.data) == Some(Revert::Paused),
        batch_transfer_refusal(s, q.call, q.who, q.transfers) == Some(Revert::Paused),
{
}

/// The pause does not bar its own way out: whether an administrator may pause or unpause does
/// not depend on whether the contract is paused.
pub proof fn law_pause_is_reversible(s: State, q: Request)
    requires
        pauser_refusal(s, q.call, q.who) is None,
    ensures
        s.admin == Some(q.who),
        pauser_refusal(State { paused: true, ..s }, q.call, q.who) is None,
        pauser_refusal(State { paused: false, ..s }, q.call, q.who) is None,
        !s.paused ==> (State { paused: false, ..(State { paused: true, ..s }) }) == s,
{
}

/// Only who signs gets through: where an entry point acts in someone's name, it is refused
/// without that one's authorization.
pub proof fn law_unsigned_calls_are_refused(s: State, q: Request)
    requires
        !q.call.has_auth(q.who),
    ensures
        initialize_refusal(s, q.call, q.who) is Some,
        gate_refusal(s, q.call, q.who) is Some,
        parameter_refusal(s, q.call, q.who, q.verdict) is Some,
        admin_gate_refusal(s, q.call, q.who) is Some,
        s.admin == Some(q.who) ==> standing_admin_refusal(s, q.call) is Some,
        transfer_admin_refusal(s, q.call, q.who, q.other) is Some,
        transfer_admin_refusal(s, q.call, q.other, q.who) is Some,
        pauser_refusal(s, q.call, q.who) is Some,
        add_refusal(s, q.call, q.who, q.other, q.data, q.nonce, q.weight) is Some,
        revoke_refusal(s, q.call, q.who, q.id, q.nonce) is Some,
        create_begin_refusal(s, q.call, q.who) is Some,
        top_up_begin_refusal(s, q.call, q.who) is Some,
        extend_refusal(s, q.call, q.who, q.duration) is Some,
        request_refusal(s, q.call, q.who) is Some,
        withdraw_refusal(s, q.call, q.who, q.amount) is Some,
        early_refusal(s, q.call, q.who, q.amount, q.penalty) is Some,
        close_refusal(s, q.call, q.who) is Some,
        slash_bond_refusal(s, q.call, q.who, q.amount, q.data) is Some,
        slash_refusal(s, q.call, q.who, q.amount, q.verdict) is Some,
        liquidate_refusal(s, q.call, q.who) is Some,
        collect_refusal(s, q.call, q.who, q.data) is Some,
        batch_transfer_refusal(s, q.call, q.who, q.transfers) is Some,
        schedule_refusal(s, q.call, q.who, q.duration) is Some,
        drainer_refusal(s, q.call, q.who) is Some,
        drain_refusal(s, q.call, q.who, q.amount, q.other) is Some,
{
}

/// Only the administrator administers: the entry points that are the administrator's refuse
/// everyone else, and refuse everyone before the contract has an administrator.
pub proof fn law_only_the_admin_administers(s: State, q: Request)
    requires
        s.admin != Some(q.who),
    ensures
        admin_gate_refusal(s, q.call, q.who) is Some,
        transfer_admin_refusal(s, q.call, q.who, q.other) is Some,
        pauser_refusal(s, q.call, q.who) is Some,
        slash_bond_refusal(s, q.call, q.who, q.amount, q.data) is Some,
        slash_refusal(s, q.call, q.who, q.amount, q.verdict) is Some,
        liquidate_refusal(s, q.call, q.who) is Some,
        collect_refusal(s, q.call, q.who, q.data) is Some,
        batch_transfer_refusal(s, q.call, q.who, q.transfers) is Some,
        schedule_refusal(s, q.call, q.who, q.duration) is Some,
        drainer_refusal(s, q.call, q.who) is Some,
        drain_refusal(s, q.call, q.who, q.amount, q.other) is Some,
{
}

/// The contract is set up once: once it has an administrator, set-up is refused for good.
pub proof fn law_initialized_once(s: State, q: Request, later: Call, admin: Address)
    requires
        initialize_refusal(s, q.call, q.who) is None,
    ensures
        initialize_refusal(State { admin: Some(q.who), ..s }, later, admin) == Some(
            Revert::Contract(ContractError::AlreadyInitialized),
        ),
{
}

/// A hand-over of the admin role takes effect at once: the old administrator is refused, and the
/// new one, who signed, is not.
pub proof fn law_handover_moves_the_role(s: State, q: Request)
    requires
        transfer_admin_refusal(s, q.call, q.who, q.other) is None,
    ensures
        ({
            let next = State { admin: Some(q.other), ..s };
            &&& q.call.has_auth(q.who) && q.call.has_auth(q.other)
            &&& admin_refusal(s, q.who) is None
            &&& admin_refusal(next, q.who) == Some(Revert::Contract(ContractError::NotAdmin))
            &&& admin_gate_refusal(next, q.call, q.other) is None
            &&& !q.other.spec_is_zero()
        }),
{
}

/// While a guarded operation holds the lock, every guarded operation is refused, and those that
/// would otherwise go through are refused as re-entrant.
pub proof fn law_lock_stops_reentry(s: State, q: Request)
    requires
        s.locked,
    ensures
        ({
            let idle = State { locked: false, ..s };
            let reentrant = Some(Revert::Contract(ContractError::ReentrancyDetected));
            &&& lock_refusal(s) == reentrant
            &&& close_refusal(s, q.call, q.who) is Some
            &&& close_refusal(idle, q.call, q.who) is None ==> close_refusal(s, q.call, q.who)
                == reentrant
            &&& slash_bond_refusal(s, q.call, q.who, q.amount, q.data) is Some
            &&& slash_bond_refusal(idle, q.call, q.who, q.amount, q.data) is None
                ==> slash_bond_refusal(s, q.call, q.who, q.amount, q.data) == reentrant
            &&& collect_refusal(s, q.call, q.who, q.data) is Some
            &&& collect_refusal(idle, q.call, q.who, q.data) is None ==> collect_refusal(
                s,
                q.call,
                q.who,
                q.data,
            ) == reentrant
            &&& liquidate_refusal(s, q.call, q.who) is Some
            &&& liquidate_refusal(idle, q.call, q.who) is None ==> liquidate_refusal(
                s,
                q.call,
                q.who,
            ) == reentrant
            &&& top_up_begin_refusal(s, q.call, q.who) is Some
            &&& top_up_begin_refusal(idle, q.call, q.who) is None ==> top_up_begin_refusal(
                s,
                q.call,
                q.who,
            ) == reentrant
            &&& early_refusal(s, q.call, q.who, q.amount, q.penalty) is Some
            &&& early_refusal(idle, q.call, q.who, q.amount, q.penalty) is None ==> early_refusal(
                s,
                q.call,
                q.who,
                q.amount,
                q.penalty,
            ) == reentrant
        }),
{
}

/// A guarded operation that goes through found the lock free, and so leaves it free: its outcome
/// differs from the state while it ran in the lock alone.
pub proof fn law_guarded_operations_start_unlocked(s: State, q: Request)
    requires
        close_refusal(s, q.call, q.who) is None || slash_bond_refusal(
            s,
            q.call,
            q.who,
            q.amount,
            q.data,
        ) is None || collect_refusal(s, q.call, q.who, q.data) is None || liquidate_refusal(
            s,
            q.call,
            q.who,
        ) is None || top_up_begin_refusal(s, q.call, q.who) is None || early_refusal(
            s,
            q.call,
            q.who,
            q.amount,
            q.penalty,
        ) is None,
    ensures
        !s.locked,
        (State { locked: false, ..(State { locked: true, ..s }) }) == s,
{
}

} // verus!
