//! What each call on a parameter does, told of what it is handed and what it gives.
use crate::address::Address;
use crate::call::Call;
use crate::effect::Outcome;
use crate::error::{Revert, Verdict};
use crate::laws::{comes_to, signed};
use crate::state::{CredenceBond, State};
use crate::types::Parameters;
use vstd::prelude::*;

verus! {

/// What the setting of a parameter comes to: it is let through where the contract is not paused,
/// the address in whose name it is made signed it, and the governance rules agree; and then it
/// changes the parameters, and nothing else, to those given.
pub open spec fn sets(
    s: State,
    t: State,
    call: Call,
    admin: Address,
    verdict: Verdict,
    r: Result<Outcome<()>, Revert>,
    parameters: Parameters,
) -> bool {
    comes_to(
        s,
        t,
        r,
        !s.paused && signed(call, admin) && verdict is Ok,
        if s.paused {
            Revert::Paused
        } else if !signed(call, admin) {
            Revert::Unauthorized
        } else {
            verdict->Err_0
        },
        State { parameters, ..s },
        (),
        seq![],
    )
}

/// Both ways to set the protocol fee set it, and no other parameter, and it is read as it is held.
pub proof fn law_protocol_fee_bps_is_kept(
    c: &mut CredenceBond,
    a: &mut CredenceBond,
    seen: CredenceBond,
    read: u32,
    call: Call,
    admin: Address,
    value: u32,
    verdict: Verdict,
    r: Result<Outcome<()>, Revert>,
    q: Result<Outcome<()>, Revert>,
)
    requires
        call_ensures(CredenceBond::set_protocol_fee_bps, (c, &call, admin, value, verdict), r),
        call_ensures(CredenceBond::set_protocol_fee_bps_appr, (a, &call, admin, value, verdict), q),
        call_ensures(CredenceBond::get_protocol_fee_bps, (&seen,), read),
    ensures
        sets(
            old(c)@,
            final(c)@,
            call,
            admin,
            verdict,
            r,
            Parameters { protocol_fee_bps: value, ..old(c)@.parameters },
        ),
        sets(
            old(a)@,
            final(a)@,
            call,
            admin,
            verdict,
            q,
            Parameters { protocol_fee_bps: value, ..old(a)@.parameters },
        ),
        read == seen.parameters.protocol_fee_bps,
{
}

/// Both ways to set the attestation fee set it, and no other parameter, and it is read as it is held.
pub proof fn law_attestation_fee_bps_is_kept(
    c: &mut CredenceBond,
    a: &mut CredenceBond,
    seen: CredenceBond,
    read: u32,
    call: Call,
    admin: Address,
    value: u32,
    verdict: Verdict,
    r: Result<Outcome<()>, Revert>,
    q: Result<Outcome<()>, Revert>,
)
    requires
        call_ensures(CredenceBond::set_attestation_fee_bps, (c, &call, admin, value, verdict), r),
        call_ensures(CredenceBond::set_attestation_fee_bps_appr, (a, &call, admin, value, verdict), q),
        call_ensures(CredenceBond::get_attestation_fee_bps, (&seen,), read),
    ensures
        sets(
            old(c)@,
            final(c)@,
            call,
            admin,
            verdict,
            r,
            Parameters { attestation_fee_bps: value, ..old(c)@.parameters },
        ),
        sets(
            old(a)@,
            final(a)@,
            call,
            admin,
            verdict,
            q,
            Parameters { attestation_fee_bps: value, ..old(a)@.parameters },
        ),
        read == seen.parameters.attestation_fee_bps,
{
}

/// Both ways to set the withdrawal cooldown set it, and no other parameter, and it is read as it is held.
pub proof fn law_withdrawal_cooldown_secs_is_kept(
    c: &mut CredenceBond,
    a: &mut CredenceBond,
    seen: CredenceBond,
    read: u64,
    call: Call,
    admin: Address,
    value: u64,
    verdict: Verdict,
    r: Result<Outcome<()>, Revert>,
    q: Result<Outcome<()>, Revert>,
)
    requires
        call_ensures(CredenceBond::set_withdrawal_cooldown_secs, (c, &call, admin, value, verdict), r),
        call_ensures(CredenceBond::set_withdrawal_cd_secs_appr, (a, &call, admin, value, verdict), q),
        call_ensures(CredenceBond::get_withdrawal_cooldown_secs, (&seen,), read),
    ensures
        sets(
            old(c)@,
            final(c)@,
            call,
            admin,
            verdict,
            r,
            Parameters { withdrawal_cooldown_secs: value, ..old(c)@.parameters },
        ),
        sets(
            old(a)@,
            final(a)@,
            call,
            admin,
            verdict,
            q,
            Parameters { withdrawal_cooldown_secs: value, ..old(a)@.parameters },
        ),
        read == seen.parameters.withdrawal_cooldown_secs,
{
}

/// Both ways to set the slash cooldown set it, and no other parameter, and it is read as it is held.
pub proof fn law_slash_cooldown_secs_is_kept(
    c: &mut CredenceBond,
    a: &mut CredenceBond,
    seen: CredenceBond,
    read: u64,
    call: Call,
    admin: Address,
    value: u64,
    verdict: Verdict,
    r: Result<Outcome<()>, Revert>,
    q: Result<Outcome<()>, Revert>,
)
    requires
        call_ensures(CredenceBond::set_slash_cooldown_secs, (c, &call, admin, value, verdict), r),
        call_ensures(CredenceBond::set_slash_cd_secs_appr, (a, &call, admin, value, verdict), q),
        call_ensures(CredenceBond::get_slash_cooldown_secs, (&seen,), read),
    ensures
        sets(
            old(c)@,
            final(c)@,
            call,
            admin,
            verdict,
            r,
            Parameters { slash_cooldown_secs: value, ..old(c)@.parameters },
        ),
        sets(
            old(a)@,
            final(a)@,
            call,
            admin,
            verdict,
            q,
            Parameters { slash_cooldown_secs: value, ..old(a)@.parameters },
        ),
        read == seen.parameters.slash_cooldown_secs,
{
}

/// Both ways to set the Bronze threshold set it, and no other parameter, and it is read as it is held.
pub proof fn law_bronze_threshold_is_kept(
    c: &mut CredenceBond,
    a: &mut CredenceBond,
    seen: CredenceBond,
    read: i128,
    call: Call,
    admin: Address,
    value: i128,
    verdict: Verdict,
    r: Result<Outcome<()>, Revert>,
    q: Result<Outcome<()>, Revert>,
)
    requires
        call_ensures(CredenceBond::set_bronze_threshold, (c, &call, admin, value, verdict), r),
        call_ensures(CredenceBond::set_bronze_threshold_appr, (a, &call, admin, value, verdict), q),
        call_ensures(CredenceBond::get_bronze_threshold, (&seen,), read),
    ensures
        sets(
            old(c)@,
            final(c)@,
            call,
            admin,
            verdict,
            r,
            Parameters { bronze_threshold: value, ..old(c)@.parameters },
        ),
        sets(
            old(a)@,
            final(a)@,
            call,
            admin,
            verdict,
            q,
            Parameters { bronze_threshold: value, ..old(a)@.parameters },
        ),
        read == seen.parameters.bronze_threshold,
{
}

/// Both ways to set the Silver threshold set it, and no other parameter, and it is read as it is held.
pub proof fn law_silver_threshold_is_kept(
    c: &mut CredenceBond,
    a: &mut CredenceBond,
    seen: CredenceBond,
    read: i128,
    call: Call,
    admin: Address,
    value: i128,
    verdict: Verdict,
    r: Result<Outcome<()>, Revert>,
    q: Result<Outcome<()>, Revert>,
)
    requires
        call_ensures(CredenceBond::set_silver_threshold, (c, &call, admin, value, verdict), r),
        call_ensures(CredenceBond::set_silver_threshold_appr, (a, &call, admin, value, verdict), q),
        call_ensures(CredenceBond::get_silver_threshold, (&seen,), read),
    ensures
        sets(
            old(c)@,
            final(c)@,
            call,
            admin,
            verdict,
            r,
            Parameters { silver_threshold: value, ..old(c)@.parameters },
        ),
        sets(
            old(a)@,
            final(a)@,
            call,
            admin,
            verdict,
            q,
            Parameters { silver_threshold: value, ..old(a)@.parameters },
        ),
        read == seen.parameters.silver_threshold,
{
}

/// Both ways to set the Gold threshold set it, and no other parameter, and it is read as it is held.
pub proof fn law_gold_threshold_is_kept(
    c: &mut CredenceBond,
    a: &mut CredenceBond,
    seen: CredenceBond,
    read: i128,
    call: Call,
    admin: Address,
    value: i128,
    verdict: Verdict,
    r: Result<Outcome<()>, Revert>,
    q: Result<Outcome<()>, Revert>,
)
    requires
        call_ensures(CredenceBond::set_gold_threshold, (c, &call, admin, value, verdict), r),
        call_ensures(CredenceBond::set_gold_threshold_appr, (a, &call, admin, value, verdict), q),
        call_ensures(CredenceBond::get_gold_threshold, (&seen,), read),
    ensures
        sets(
            old(c)@,
            final(c)@,
            call,
            admin,
            verdict,
            r,
            Parameters { gold_threshold: value, ..old(c)@.parameters },
        ),
        sets(
            old(a)@,
            final(a)@,
            call,
            admin,
            verdict,
            q,
            Parameters { gold_threshold: value, ..old(a)@.parameters },
        ),
        read == seen.parameters.gold_threshold,
{
}

/// Both ways to set the Platinum threshold set it, and no other parameter, and it is read as it is held.
pub proof fn law_platinum_threshold_is_kept(
    c: &mut CredenceBond,
    a: &mut CredenceBond,
    seen: CredenceBond,
    read: i128,
    call: Call,
    admin: Address,
    value: i128,
    verdict: Verdict,
    r: Result<Outcome<()>, Revert>,
    q: Result<Outcome<()>, Revert>,
)
    requires
        call_ensures(CredenceBond::set_platinum_threshold, (c, &call, admin, value, verdict), r),
        call_ensures(CredenceBond::set_platinum_threshold_appr, (a, &call, admin, value, verdict), q),
        call_ensures(CredenceBond::get_platinum_threshold, (&seen,), read),
    ensures
        sets(
            old(c)@,
            final(c)@,
            call,
            admin,
            verdict,
            r,
            Parameters { platinum_threshold: value, ..old(c)@.parameters },
        ),
        sets(
            old(a)@,
            final(a)@,
            call,
            admin,
            verdict,
            q,
            Parameters { platinum_threshold: value, ..old(a)@.parameters },
        ),
        read == seen.parameters.platinum_threshold,
{
}

/// Both ways to set the highest leverage set it, and no other parameter, and it is read as it is held.
pub proof fn law_max_leverage_is_kept(
    c: &mut CredenceBond,
    a: &mut CredenceBond,
    seen: CredenceBond,
    read: u32,
    call: Call,
    admin: Address,
    value: u32,
    verdict: Verdict,
    r: Result<Outcome<()>, Revert>,
    q: Result<Outcome<()>, Revert>,
)
    requires
        call_ensures(CredenceBond::set_max_leverage, (c, &call, admin, value, verdict), r),
        call_ensures(CredenceBond::set_max_leverage_appr, (a, &call, admin, value, verdict), q),
        call_ensures(CredenceBond::get_max_leverage, (&seen,), read),
    ensures
        sets(
            old(c)@,
            final(c)@,
            call,
            admin,
            verdict,
            r,
            Parameters { max_leverage: value, ..old(c)@.parameters },
        ),
        sets(
            old(a)@,
            final(a)@,
            call,
            admin,
            verdict,
            q,
            Parameters { max_leverage: value, ..old(a)@.parameters },
        ),
        read == seen.parameters.max_leverage,
{
}

} // verus!
