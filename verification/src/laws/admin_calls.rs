//! What each call on the set-up and configuration does, told of what it is handed and what it
//! gives.
use crate::address::Address;
use crate::call::Call;
use crate::effect::{Effect, Event, Outcome};
use crate::error::{ContractError, Revert, Verdict};
use crate::laws::{by_admin, coded, comes_to, not_by_admin, signed};
use crate::state::{CredenceBond, State};
use crate::types::{BondConfigView, EarlyExitConfig, Parameters, TierThresholds, WeightConfig};
use vstd::prelude::*;

verus! {

/// What a contract holds is what its fields hold.
pub proof fn law_contract_is_seen_as_it_is(c: CredenceBond)
    ensures
        c@.admin == c.admin,
        c@.paused == c.paused,
        c@.locked == c.locked,
        c@.bond == c.bond,
        c@.accepted_tokens == c.accepted_tokens@,
        c@.token == c.token,
        c@.early_exit == c.early_exit,
        c@.weight_config == c.weight_config,
        c@.tier_thresholds == c.tier_thresholds,
        c@.parameters == c.parameters,
        c@.borrow_frozen == c.borrow_frozen,
        c@.attesters == c.attesters@,
        c@.attester_stakes == c.attester_stakes@,
        c@.attestations == c.attestations@,
        c@.attestation_counter == c.attestation_counter,
        c@.subject_attestations == c.subject_attestations@,
        c@.subject_attestation_counts == c.subject_attestation_counts@,
        c@.dedup_keys == c.dedup_keys@,
        c@.nonces == c.nonces@,
        c@.fees == c.fees,
        c@.callback == c.callback,
        c@.liquidation_treasury == c.liquidation_treasury,
        c@.slash_treasury == c.slash_treasury,
        c@.liquidated == c.liquidated@,
        c@.idempotency_keys == c.idempotency_keys@,
        c@.upgrade_admin == c.upgrade_admin,
        c@.pending_upgrade_admin == c.pending_upgrade_admin,
        c@.emergency_treasury == c.emergency_treasury,
        c@.drain_eta == c.drain_eta,
        c@.latest_drain_id == c.latest_drain_id,
        c@.drain_records == c.drain_records@,
        c@.claims == c.claims@,
{
}

/// A contract that was just deployed has no administrator, no bond and no record of anything; it
/// is neither paused, locked nor frozen; and it has the settings it was given.
pub proof fn law_deployed_contract_is_blank(
    thresholds: TierThresholds,
    parameters: Parameters,
    weights: WeightConfig,
    c: CredenceBond,
)
    requires
        call_ensures(CredenceBond::deploy, (thresholds, parameters, weights), c),
    ensures
        c.admin is None && c.bond is None && c.token is None && c.early_exit is None,
        !c.paused && !c.locked && !c.borrow_frozen,
        c.callback is None && c.liquidation_treasury is None && c.slash_treasury is None,
        c.upgrade_admin is None && c.pending_upgrade_admin is None,
        c.emergency_treasury is None && c.drain_eta is None,
        c.fees == 0 && c.attestation_counter == 0 && c.latest_drain_id == 0,
        c.accepted_tokens@.len() == 0,
        c.tier_thresholds == thresholds,
        c.parameters == parameters,
        c.weight_config == weights,
        forall|a: Address|
            #![auto]
            !c.attesters@.contains_key(a) && !c.attester_stakes@.contains_key(a)
                && !c.subject_attestations@.contains_key(a)
                && !c.subject_attestation_counts@.contains_key(a) && !c.nonces@.contains_key(a)
                && !c.liquidated@.contains_key(a) && !c.claims@.contains_key(a),
        forall|id: u64|
            #![auto]
            !c.attestations@.contains_key(id) && !c.drain_records@.contains_key(id),
        c.dedup_keys@ == Map::<crate::types::DedupModel, bool>::empty(),
        c.idempotency_keys@ == Map::<crate::types::IdempotencyModel, bool>::empty(),
{
}

/// The readers of single settings read them as they are held.
pub proof fn law_settings_are_read_as_held(
    c: CredenceBond,
    pause_check: Result<(), Revert>,
    frozen: bool,
    paused: bool,
    locked: bool,
    pending: Option<Address>,
    weights: (u32, u32),
)
    requires
        call_ensures(CredenceBond::require_not_paused, (&c,), pause_check),
        call_ensures(CredenceBond::is_borrow_frozen, (&c,), frozen),
        call_ensures(CredenceBond::is_paused, (&c,), paused),
        call_ensures(CredenceBond::is_locked, (&c,), locked),
        call_ensures(CredenceBond::get_pending_upgrade_admin, (&c,), pending),
        call_ensures(CredenceBond::get_weight_config, (&c,), weights),
    ensures
        pause_check is Ok <==> !c.paused,
        pause_check is Err ==> pause_check->Err_0 == Revert::Paused,
        frozen == c.borrow_frozen,
        paused == c.paused,
        locked == c.locked,
        pending == c.pending_upgrade_admin,
        weights.0 == c.weight_config.multiplier_bps && weights.1 == c.weight_config.max_weight,
{
}

/// The description of the configuration is there once there is an administrator, and shows the
/// settings as they are held.
pub proof fn law_configuration_is_described_as_held(c: CredenceBond, r: Option<BondConfigView>)
    requires
        call_ensures(CredenceBond::describe_config, (&c,), r),
    ensures
        r is Some <==> c.admin is Some,
        r is Some ==> c.admin == Some(r->0.admin),
        r is Some ==> r->0.weight_multiplier_bps == c.weight_config.multiplier_bps
            && r->0.weight_max == c.weight_config.max_weight,
        r is Some && c.early_exit is None ==> r->0.early_exit_treasury is None
            && r->0.early_exit_penalty_bps is None,
        r is Some && c.early_exit is Some ==> r->0.early_exit_treasury == Some(
            c.early_exit->0.treasury,
        ) && r->0.early_exit_penalty_bps == Some(c.early_exit->0.penalty_bps),
{
}

/// What set-up comes to.
pub open spec fn sets_up(
    s: State,
    t: State,
    call: Call,
    admin: Address,
    r: Result<Outcome<()>, Revert>,
    effects: Seq<Effect>,
) -> bool {
    comes_to(
        s,
        t,
        r,
        !s.paused && s.admin is None && signed(call, admin),
        if s.paused {
            Revert::Paused
        } else if s.admin is Some {
            coded(ContractError::AlreadyInitialized)
        } else {
            Revert::Unauthorized
        },
        State { admin: Some(admin), ..s },
        (),
        effects,
    )
}

/// Set-up names the administrator, who has to sign, where there is none yet, and has the contract
/// registered where a registry is given.
pub proof fn law_set_up_names_the_admin(
    c: &mut CredenceBond,
    d: &mut CredenceBond,
    call: Call,
    admin: Address,
    maybe: Option<Address>,
    registry: Address,
    r: Result<Outcome<()>, Revert>,
    q: Result<Outcome<()>, Revert>,
)
    requires
        call_ensures(CredenceBond::initialize, (c, &call, admin, maybe), r),
        call_ensures(CredenceBond::initialize_with_registry, (d, &call, admin, registry), q),
    ensures
        sets_up(
            old(c)@,
            final(c)@,
            call,
            admin,
            r,
            if maybe is Some {
                seq![Effect::Register { registry: maybe->0, contract: call.contract, admin }]
            } else {
                seq![]
            },
        ),
        sets_up(
            old(d)@,
            final(d)@,
            call,
            admin,
            q,
            seq![Effect::Register { registry, contract: call.contract, admin }],
        ),
{
}

/// The administrator sets the accepted tokens, to any list that is not empty.
pub proof fn law_accepted_tokens_are_set(
    c: &mut CredenceBond,
    call: Call,
    admin: Address,
    tokens: Vec<Address>,
    r: Result<Outcome<()>, Revert>,
)
    requires
        call_ensures(CredenceBond::set_accepted_tokens, (c, &call, admin, tokens), r),
    ensures
        comes_to(
            old(c)@,
            final(c)@,
            r,
            by_admin(old(c)@, call, admin) && tokens@.len() > 0,
            if !by_admin(old(c)@, call, admin) {
                not_by_admin(old(c)@, call, admin)
            } else {
                Revert::EmptyTokenList
            },
            State { accepted_tokens: tokens@, ..old(c)@ },
            (),
            seq![],
        ),
{
}

/// The administrator sets the token, where the token rules agree.
pub proof fn law_token_is_set(
    c: &mut CredenceBond,
    call: Call,
    admin: Address,
    token: Address,
    verdict: Verdict,
    r: Result<Outcome<()>, Revert>,
)
    requires
        call_ensures(CredenceBond::set_token, (c, &call, admin, token, verdict), r),
    ensures
        comes_to(
            old(c)@,
            final(c)@,
            r,
            by_admin(old(c)@, call, admin) && verdict is Ok,
            if !by_admin(old(c)@, call, admin) {
                not_by_admin(old(c)@, call, admin)
            } else {
                verdict->Err_0
            },
            State { token: Some(token), ..old(c)@ },
            (),
            seq![],
        ),
{
}

/// The administrator sets the early-exit configuration, at any rate up to the whole.
pub proof fn law_early_exit_is_configured(
    c: &mut CredenceBond,
    call: Call,
    admin: Address,
    treasury: Address,
    penalty_bps: u32,
    r: Result<Outcome<()>, Revert>,
)
    requires
        call_ensures(
            CredenceBond::set_early_exit_config,
            (c, &call, admin, treasury, penalty_bps),
            r,
        ),
    ensures
        comes_to(
            old(c)@,
            final(c)@,
            r,
            by_admin(old(c)@, call, admin) && penalty_bps <= 10_000,
            if !by_admin(old(c)@, call, admin) {
                not_by_admin(old(c)@, call, admin)
            } else {
                Revert::PenaltyRateOutOfRange
            },
            State {
                early_exit: Some(EarlyExitConfig { treasury, penalty_bps }),
                ..old(c)@
            },
            (),
            seq![],
        ),
{
}

/// The administrator freezes and unfreezes borrowing.
pub proof fn law_borrowing_is_frozen(
    c: &mut CredenceBond,
    call: Call,
    admin: Address,
    frozen: bool,
    r: Result<Outcome<()>, Revert>,
)
    requires
        call_ensures(CredenceBond::set_borrow_frozen, (c, &call, admin, frozen), r),
    ensures
        comes_to(
            old(c)@,
            final(c)@,
            r,
            by_admin(old(c)@, call, admin),
            not_by_admin(old(c)@, call, admin),
            State { borrow_frozen: frozen, ..old(c)@ },
            (),
            seq![],
        ),
{
}

/// The callback contract is set on the administrator's signature.
pub proof fn law_callback_is_set(
    c: &mut CredenceBond,
    call: Call,
    addr: Address,
    r: Result<Outcome<()>, Revert>,
)
    requires
        call_ensures(CredenceBond::set_callback, (c, &call, addr), r),
    ensures
        comes_to(
            old(c)@,
            final(c)@,
            r,
            !old(c)@.paused && old(c)@.admin is Some && signed(call, old(c)@.admin->0),
            if old(c)@.paused {
                Revert::Paused
            } else if old(c)@.admin is None {
                coded(ContractError::NotInitialized)
            } else {
                Revert::Unauthorized
            },
            State { callback: Some(addr), ..old(c)@ },
            (),
            seq![],
        ),
{
}

/// The admin role passes from its holder to another address that is not zero, when both sign.
pub proof fn law_admin_role_passes_on(
    c: &mut CredenceBond,
    call: Call,
    current: Address,
    new: Address,
    r: Result<Outcome<()>, Revert>,
)
    requires
        call_ensures(CredenceBond::transfer_admin, (c, &call, current, new), r),
    ensures
        ({
            let s = old(c)@;
            comes_to(
                s,
                final(c)@,
                r,
                !s.paused && signed(call, current) && signed(call, new) && s.admin == Some(current)
                    && new != current && !(new.hi == 0 && new.lo == 0),
                if s.paused {
                    Revert::Paused
                } else if !signed(call, current) || !signed(call, new) {
                    Revert::Unauthorized
                } else if s.admin is None {
                    coded(ContractError::NotInitialized)
                } else if s.admin != Some(current) {
                    coded(ContractError::NotAdmin)
                } else if new == current {
                    coded(ContractError::AdminUnchanged)
                } else {
                    coded(ContractError::InvalidAdminAddress)
                },
                State { admin: Some(new), ..s },
                (),
                seq![
                    Effect::Publish(
                        Event::AdminTransferred { current_admin: current, new_admin: new },
                    ),
                ],
            )
        }),
{
}

/// What a step in the hand-over of the upgrade role comes to.
pub open spec fn steps(
    s: State,
    t: State,
    call: Call,
    who: Address,
    verdict: Verdict,
    r: Result<Outcome<()>, Revert>,
    next: State,
) -> bool {
    comes_to(
        s,
        t,
        r,
        !s.paused && signed(call, who) && verdict is Ok,
        if s.paused {
            Revert::Paused
        } else if !signed(call, who) {
            Revert::Unauthorized
        } else {
            verdict->Err_0
        },
        next,
        (),
        seq![],
    )
}

/// The upgrade role is proposed, taken up or kept back by who signs, where the upgrade rules
/// agree.
pub proof fn law_upgrade_role_steps(
    proposing: &mut CredenceBond,
    accepting: &mut CredenceBond,
    cancelling: &mut CredenceBond,
    call: Call,
    who: Address,
    new_admin: Address,
    verdict: Verdict,
    proposed: Result<Outcome<()>, Revert>,
    accepted: Result<Outcome<()>, Revert>,
    cancelled: Result<Outcome<()>, Revert>,
)
    requires
        call_ensures(
            CredenceBond::transfer_upgrade_admin,
            (proposing, &call, who, new_admin, verdict),
            proposed,
        ),
        call_ensures(
            CredenceBond::accept_upgrade_admin,
            (accepting, &call, who, verdict),
            accepted,
        ),
        call_ensures(
            CredenceBond::cancel_upgrade_admin_transfer,
            (cancelling, &call, who, verdict),
            cancelled,
        ),
    ensures
        steps(
            old(proposing)@,
            final(proposing)@,
            call,
            who,
            verdict,
            proposed,
            State { pending_upgrade_admin: Some(new_admin), ..old(proposing)@ },
        ),
        steps(
            old(accepting)@,
            final(accepting)@,
            call,
            who,
            verdict,
            accepted,
            State {
                upgrade_admin: Some(who),
                pending_upgrade_admin: None,
                ..old(accepting)@
            },
        ),
        steps(
            old(cancelling)@,
            final(cancelling)@,
            call,
            who,
            verdict,
            cancelled,
            State { pending_upgrade_admin: None, ..old(cancelling)@ },
        ),
{
}

/// The administrator pauses and unpauses the contract with a signature, whether or not it is
/// paused.
pub proof fn law_admin_pauses_and_unpauses(
    c: &mut CredenceBond,
    d: &mut CredenceBond,
    call: Call,
    who: Address,
    r: Result<Outcome<Option<u64>>, Revert>,
    q: Result<Outcome<Option<u64>>, Revert>,
)
    requires
        call_ensures(CredenceBond::pause, (c, &call, who), r),
        call_ensures(CredenceBond::unpause, (d, &call, who), q),
    ensures
        comes_to(
            old(c)@,
            final(c)@,
            r,
            signed(call, who) && old(c)@.admin == Some(who),
            if !signed(call, who) {
                Revert::Unauthorized
            } else if old(c)@.admin is None {
                Revert::PauseNotInitialized
            } else {
                Revert::PauseNotAdmin
            },
            State { paused: true, ..old(c)@ },
            None,
            seq![],
        ),
        comes_to(
            old(d)@,
            final(d)@,
            q,
            signed(call, who) && old(d)@.admin == Some(who),
            if !signed(call, who) {
                Revert::Unauthorized
            } else if old(d)@.admin is None {
                Revert::PauseNotInitialized
            } else {
                Revert::PauseNotAdmin
            },
            State { paused: false, ..old(d)@ },
            None,
            seq![],
        ),
{
}

} // verus!
