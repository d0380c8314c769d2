//! Protocol parameters under governance.
//!
//! Each parameter has a reader and two writers. A writer needs the authorization of the address in
//! whose name it is called, and takes the answer of the governance rules (access control, bounds
//! and, for the second writer, the governance approval) as a verdict.
use crate::address::Address;
use crate::call::Call;
use crate::effect::{first_of, verdict_refusal, Outcome};
use crate::error::{Revert, Verdict};
use crate::state::{gate_refusal, transacts, CredenceBond, State};
use crate::types::Parameters;
use vstd::prelude::*;

verus! {

/// Why a parameter is not set.
pub open spec fn parameter_refusal(
    s: State,
    call: Call,
    admin: Address,
    verdict: Verdict,
) -> Option<Revert> {
    first_of(gate_refusal(s, call, admin), verdict_refusal(verdict))
}

/// The state with other parameters.
pub open spec fn with_parameters(s: State, parameters: Parameters) -> State {
    State { parameters, ..s }
}

impl CredenceBond {
    /// The protocol fee, in basis points.
    pub fn get_protocol_fee_bps(&self) -> (r: u32)
        ensures
            r == self@.parameters.protocol_fee_bps,
    {
        self.parameters.protocol_fee_bps
    }

    /// Set the protocol fee, in basis points.
    pub fn set_protocol_fee_bps(
        &mut self,
        call: &Call,
        admin: Address,
        value: u32,
        verdict: Verdict,
    ) -> (r: Result<Outcome<()>, Revert>)
        ensures
            transacts(
                old(self)@,
                final(self)@,
                r,
                parameter_refusal(old(self)@, *call, admin, verdict),
                with_parameters(
                    old(self)@,
                    Parameters { protocol_fee_bps: value, ..old(self)@.parameters },
                ),
                (),
                seq![],
            ),
    {
        self.require_gate(call, &admin)?;
        verdict?;
        self.parameters.protocol_fee_bps = value;
        Ok(Outcome { value: (), effects: vec![] })
    }

    /// Set the protocol fee, in basis points, with a governance approval.
    pub fn set_protocol_fee_bps_appr(
        &mut self,
        call: &Call,
        admin: Address,
        value: u32,
        verdict: Verdict,
    ) -> (r: Result<Outcome<()>, Revert>)
        ensures
            transacts(
                old(self)@,
                final(self)@,
                r,
                parameter_refusal(old(self)@, *call, admin, verdict),
                with_parameters(
                    old(self)@,
                    Parameters { protocol_fee_bps: value, ..old(self)@.parameters },
                ),
                (),
                seq![],
            ),
    {
        self.require_gate(call, &admin)?;
        verdict?;
        self.parameters.protocol_fee_bps = value;
        Ok(Outcome { value: (), effects: vec![] })
    }

    /// The attestation fee, in basis points.
    pub fn get_attestation_fee_bps(&self) -> (r: u32)
        ensures
            r == self@.parameters.attestation_fee_bps,
    {
        self.parameters.attestation_fee_bps
    }

    /// Set the attestation fee, in basis points.
    pub fn set_attestation_fee_bps(
        &mut self,
        call: &Call,
        admin: Address,
        value: u32,
        verdict: Verdict,
    ) -> (r: Result<Outcome<()>, Revert>)
        ensures
            transacts(
                old(self)@,
                final(self)@,
                r,
                parameter_refusal(old(self)@, *call, admin, verdict),
                with_parameters(
                    old(self)@,
                    Parameters { attestation_fee_bps: value, ..old(self)@.parameters },
                ),
                (),
                seq![],
            ),
    {
        self.require_gate(call, &admin)?;
        verdict?;
        self.parameters.attestation_fee_bps = value;
        Ok(Outcome { value: (), effects: vec![] })
    }

    /// Set the attestation fee, in basis points, with a governance approval.
    pub fn set_attestation_fee_bps_appr(
        &mut self,
        call: &Call,
        admin: Address,
        value: u32,
        verdict: Verdict,
    ) -> (r: Result<Outcome<()>, Revert>)
        ensures
            transacts(
                old(self)@,
                final(self)@,
                r,
                parameter_refusal(old(self)@, *call, admin, verdict),
                with_parameters(
                    old(self)@,
                    Parameters { attestation_fee_bps: value, ..old(self)@.parameters },
                ),
                (),
                seq![],
            ),
    {
        self.require_gate(call, &admin)?;
        verdict?;
        self.parameters.attestation_fee_bps = value;
        Ok(Outcome { value: (), effects: vec![] })
    }

    /// The withdrawal cooldown, in seconds.
    pub fn get_withdrawal_cooldown_secs(&self) -> (r: u64)
        ensures
            r == self@.parameters.withdrawal_cooldown_secs,
    {
        self.parameters.withdrawal_cooldown_secs
    }

    /// Set the withdrawal cooldown, in seconds.
    pub fn set_withdrawal_cooldown_secs(
        &mut self,
        call: &Call,
        admin: Address,
        value: u64,
        verdict: Verdict,
    ) -> (r: Result<Outcome<()>, Revert>)
        ensures
            transacts(
                old(self)@,
                final(self)@,
                r,
                parameter_refusal(old(self)@, *call, admin, verdict),
                with_parameters(
                    old(self)@,
                    Parameters { withdrawal_cooldown_secs: value, ..old(self)@.parameters },
                ),
                (),
                seq![],
            ),
    {
        self.require_gate(call, &admin)?;
        verdict?;
        self.parameters.withdrawal_cooldown_secs = value;
        Ok(Outcome { value: (), effects: vec![] })
    }

    /// Set the withdrawal cooldown, in seconds, with a governance approval.
    pub fn set_withdrawal_cd_secs_appr(
        &mut self,
        call: &Call,
        admin: Address,
        value: u64,
        verdict: Verdict,
    ) -> (r: Result<Outcome<()>, Revert>)
        ensures
            transacts(
                old(self)@,
                final(self)@,
                r,
                parameter_refusal(old(self)@, *call, admin, verdict),
                with_parameters(
                    old(self)@,
                    Parameters { withdrawal_cooldown_secs: value, ..old(self)@.parameters },
                ),
                (),
                seq![],
            ),
    {
        self.require_gate(call, &admin)?;
        verdict?;
        self.parameters.withdrawal_cooldown_secs = value;
        Ok(Outcome { value: (), effects: vec![] })
    }

    /// The slash cooldown, in seconds.
    pub fn get_slash_cooldown_secs(&self) -> (r: u64)
        ensures
            r == self@.parameters.slash_cooldown_secs,
    {
        self.parameters.slash_cooldown_secs
    }

    /// Set the slash cooldown, in seconds.
    pub fn set_slash_cooldown_secs(
        &mut self,
        call: &Call,
        admin: Address,
        value: u64,
        verdict: Verdict,
    ) -> (r: Result<Outcome<()>, Revert>)
        ensures
            transacts(
                old(self)@,
                final(self)@,
                r,
                parameter_refusal(old(self)@, *call, admin, verdict),
                with_parameters(
                    old(self)@,
                    Parameters { slash_cooldown_secs: value, ..old(self)@.parameters },
                ),
                (),
                seq![],
            ),
    {
        self.require_gate(call, &admin)?;
        verdict?;
        self.parameters.slash_cooldown_secs = value;
        Ok(Outcome { value: (), effects: vec![] })
    }

    /// Set the slash cooldown, in seconds, with a governance approval.
    pub fn set_slash_cd_secs_appr(
        &mut self,
        call: &Call,
        admin: Address,
        value: u64,
        verdict: Verdict,
    ) -> (r: Result<Outcome<()>, Revert>)
        ensures
            transacts(
                old(self)@,
                final(self)@,
                r,
                parameter_refusal(old(self)@, *call, admin, verdict),
                with_parameters(
                    old(self)@,
                    Parameters { slash_cooldown_secs: value, ..old(self)@.parameters },
                ),
                (),
                seq![],
            ),
    {
        self.require_gate(call, &admin)?;
        verdict?;
        self.parameters.slash_cooldown_secs = value;
        Ok(Outcome { value: (), effects: vec![] })
    }

    /// The Bronze threshold.
    pub fn get_bronze_threshold(&self) -> (r: i128)
        ensures
            r == self@.parameters.bronze_threshold,
    {
        self.parameters.bronze_threshold
    }

    /// Set the Bronze threshold.
    pub fn set_bronze_threshold(
        &mut self,
        call: &Call,
        admin: Address,
        value: i128,
        verdict: Verdict,
    ) -> (r: Result<Outcome<()>, Revert>)
        ensures
            transacts(
                old(self)@,
                final(self)@,
                r,
                parameter_refusal(old(self)@, *call, admin, verdict),
                with_parameters(
                    old(self)@,
                    Parameters { bronze_threshold: value, ..old(self)@.parameters },
                ),
                (),
                seq![],
            ),
    {
        self.require_gate(call, &admin)?;
        verdict?;
        self.parameters.bronze_threshold = value;
        Ok(Outcome { value: (), effects: vec![] })
    }

    /// Set the Bronze threshold, with a governance approval.
    pub fn set_bronze_threshold_appr(
        &mut self,
        call: &Call,
        admin: Address,
        value: i128,
        verdict: Verdict,
    ) -> (r: Result<Outcome<()>, Revert>)
        ensures
            transacts(
                old(self)@,
                final(self)@,
                r,
                parameter_refusal(old(self)@, *call, admin, verdict),
                with_parameters(
                    old(self)@,
                    Parameters { bronze_threshold: value, ..old(self)@.parameters },
                ),
                (),
                seq![],
            ),
    {
        self.require_gate(call, &admin)?;
        verdict?;
        self.parameters.bronze_threshold = value;
        Ok(Outcome { value: (), effects: vec![] })
    }

    /// The Silver threshold.
    pub fn get_silver_threshold(&self) -> (r: i128)
        ensures
            r == self@.parameters.silver_threshold,
    {
        self.parameters.silver_threshold
    }

    /// Set the Silver threshold.
    pub fn set_silver_threshold(
        &mut self,
        call: &Call,
        admin: Address,
        value: i128,
        verdict: Verdict,
    ) -> (r: Result<Outcome<()>, Revert>)
        ensures
            transacts(
                old(self)@,
                final(self)@,
                r,
                parameter_refusal(old(self)@, *call, admin, verdict),
                with_parameters(
                    old(self)@,
                    Parameters { silver_threshold: value, ..old(self)@.parameters },
                ),
                (),
                seq![],
            ),
    {
        self.require_gate(call, &admin)?;
        verdict?;
        self.parameters.silver_threshold = value;
        Ok(Outcome { value: (), effects: vec![] })
    }

    /// Set the Silver threshold, with a governance approval.
    pub fn set_silver_threshold_appr(
        &mut self,
        call: &Call,
        admin: Address,
        value: i128,
        verdict: Verdict,
    ) -> (r: Result<Outcome<()>, Revert>)
        ensures
            transacts(
                old(self)@,
                final(self)@,
                r,
                parameter_refusal(old(self)@, *call, admin, verdict),
                with_parameters(
                    old(self)@,
                    Parameters { silver_threshold: value, ..old(self)@.parameters },
                ),
                (),
                seq![],
            ),
    {
        self.require_gate(call, &admin)?;
        verdict?;
        self.parameters.silver_threshold = value;
        Ok(Outcome { value: (), effects: vec![] })
    }

    /// The Gold threshold.
    pub fn get_gold_threshold(&self) -> (r: i128)
        ensures
            r == self@.parameters.gold_threshold,
    {
        self.parameters.gold_threshold
    }

    /// Set the Gold threshold.
    pub fn set_gold_threshold(
        &mut self,
        call: &Call,
        admin: Address,
        value: i128,
        verdict: Verdict,
    ) -> (r: Result<Outcome<()>, Revert>)
        ensures
            transacts(
                old(self)@,
                final(self)@,
                r,
                parameter_refusal(old(self)@, *call, admin, verdict),
                with_parameters(
                    old(self)@,
                    Parameters { gold_threshold: value, ..old(self)@.parameters },
                ),
                (),
                seq![],
            ),
    {
        self.require_gate(call, &admin)?;
        verdict?;
        self.parameters.gold_threshold = value;
        Ok(Outcome { value: (), effects: vec![] })
    }

    /// Set the Gold threshold, with a governance approval.
    pub fn set_gold_threshold_appr(
        &mut self,
        call: &Call,
        admin: Address,
        value: i128,
        verdict: Verdict,
    ) -> (r: Result<Outcome<()>, Revert>)
        ensures
            transacts(
                old(self)@,
                final(self)@,
                r,
                parameter_refusal(old(self)@, *call, admin, verdict),
                with_parameters(
                    old(self)@,
                    Parameters { gold_threshold: value, ..old(self)@.parameters },
                ),
                (),
                seq![],
            ),
    {
        self.require_gate(call, &admin)?;
        verdict?;
        self.parameters.gold_threshold = value;
        Ok(Outcome { value: (), effects: vec![] })
    }

    /// The Platinum threshold.
    pub fn get_platinum_threshold(&self) -> (r: i128)
        ensures
            r == self@.parameters.platinum_threshold,
    {
        self.parameters.platinum_threshold
    }

    /// Set the Platinum threshold.
    pub fn set_platinum_threshold(
        &mut self,
        call: &Call,
        admin: Address,
        value: i128,
        verdict: Verdict,
    ) -> (r: Result<Outcome<()>, Revert>)
        ensures
            transacts(
                old(self)@,
                final(self)@,
                r,
                parameter_refusal(old(self)@, *call, admin, verdict),
                with_parameters(
                    old(self)@,
                    Parameters { platinum_threshold: value, ..old(self)@.parameters },
                ),
                (),
                seq![],
            ),
    {
        self.require_gate(call, &admin)?;
        verdict?;
        self.parameters.platinum_threshold = value;
        Ok(Outcome { value: (), effects: vec![] })
    }

    /// Set the Platinum threshold, with a governance approval.
    pub fn set_platinum_threshold_appr(
        &mut self,
        call: &Call,
        admin: Address,
        value: i128,
        verdict: Verdict,
    ) -> (r: Result<Outcome<()>, Revert>)
        ensures
            transacts(
                old(self)@,
                final(self)@,
                r,
                parameter_refusal(old(self)@, *call, admin, verdict),
                with_parameters(
                    old(self)@,
                    Parameters { platinum_threshold: value, ..old(self)@.parameters },
                ),
                (),
                seq![],
            ),
    {
        self.require_gate(call, &admin)?;
        verdict?;
        self.parameters.platinum_threshold = value;
        Ok(Outcome { value: (), effects: vec![] })
    }

    /// The highest leverage.
    pub fn get_max_leverage(&self) -> (r: u32)
        ensures
            r == self@.parameters.max_leverage,
    {
        self.parameters.max_leverage
    }

    /// Set the highest leverage.
    pub fn set_max_leverage(
        &mut self,
        call: &Call,
        admin: Address,
        value: u32,
        verdict: Verdict,
    ) -> (r: Result<Outcome<()>, Revert>)
        ensures
            transacts(
                old(self)@,
                final(self)@,
                r,
                parameter_refusal(old(self)@, *call, admin, verdict),
                with_parameters(
                    old(self)@,
                    Parameters { max_leverage: value, ..old(self)@.parameters },
                ),
                (),
                seq![],
            ),
    {
        self.require_gate(call, &admin)?;
        verdict?;
        self.parameters.max_leverage = value;
        Ok(Outcome { value: (), effects: vec![] })
    }

    /// Set the highest leverage, with a governance approval.
    pub fn set_max_leverage_appr(
        &mut self,
        call: &Call,
        admin: Address,
        value: u32,
        verdict: Verdict,
    ) -> (r: Result<Outcome<()>, Revert>)
        ensures
            transacts(
                old(self)@,
                final(self)@,
                r,
                parameter_refusal(old(self)@, *call, admin, verdict),
                with_parameters(
                    old(self)@,
                    Parameters { max_leverage: value, ..old(self)@.parameters },
                ),
                (),
                seq![],
            ),
    {
        self.require_gate(call, &admin)?;
        verdict?;
        self.parameters.max_leverage = value;
        Ok(Outcome { value: (), effects: vec![] })
    }
}

} // verus!
