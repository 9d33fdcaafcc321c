//! `POST /api/auth/recovery/rebind` — Driver self-serve device replacement with a Recovery Code:
//! re-bind a new device, invalidate the old token, issue a fresh Recovery Code (rotated on use),
//! and mint a new session. Riders have no self-serve path — a non-Driver is refused before any
//! secret comparison.
use vstd::prelude::*;

use crate::alerts::{AdminAlert, AlertKind};
use crate::domain::{
    ClientVersion, CodeHash, DeviceToken, MemberId, PhoneNumber, RecoveryCode,
    RecoveryCodeVerdict, Role, UnixSeconds, VersionRequirement, recovery_available_for,
    recovery_verdict_code, version_lt,
};
use crate::ports::{MemberRecord, RecoveryCodeRow, SessionMaterial};
use crate::service::{AuthService, deduped};
use crate::signin::sign_in_hub;

verus! {

/// A recovery re-bind request. Holds secrets (phone, code, push token).
pub struct RecoveryRequest {
    /// The Driver's phone number, already canonicalized to E.164.
    pub phone: PhoneNumber,
    /// The Recovery Code the Driver holds.
    pub code: RecoveryCode,
    /// The client's platform and version.
    pub reported: ClientVersion,
    /// The push device token for the new device.
    pub device_token: DeviceToken,
}

/// The outcome of a recovery re-bind.
pub enum RecoveryOutcome {
    /// New device bound, old token invalidated, a fresh Recovery Code issued.
    Rebound {
        /// The new session.
        material: SessionMaterial,
        /// The fresh Recovery Code to show the Driver once.
        fresh_recovery_code: RecoveryCode,
    },
    /// Bad or used code (`Invalid`), or no self-serve recovery for this role (`NotAvailable`).
    Rejected(RecoveryCodeVerdict),
    /// The client is below `client_min_version`; nothing was attempted.
    BelowMinVersion,
}

/// A recovery re-bind response — always carries the version requirement.
pub struct RecoveryResponse {
    /// `client_min_version` + `client_recommended_version`.
    pub version: VersionRequirement,
    /// What happened.
    pub outcome: RecoveryOutcome,
}

impl RecoveryResponse {
    /// The stable error code for this response, or `None` on a clean re-bind.
    pub fn error_code(&self) -> (code: Option<&'static str>)
        ensures
            code is None <==> (self.outcome is Rebound || self.outcome == RecoveryOutcome::Rejected(RecoveryCodeVerdict::Accepted)),
            self.outcome is BelowMinVersion ==> code == Some("AUTH_BELOW_MIN_VERSION"),
            self.outcome matches RecoveryOutcome::Rejected(v) ==> (v != RecoveryCodeVerdict::Accepted
                ==> (code matches Some(c) && c@ == recovery_verdict_code(v))),
    {
        match &self.outcome {
            RecoveryOutcome::Rebound { .. } => None,
            RecoveryOutcome::Rejected(v) => v.error_code(),
            RecoveryOutcome::BelowMinVersion => Some("AUTH_BELOW_MIN_VERSION"),
        }
    }
}

/// The challenge a presented Recovery Code is evaluated against.
pub struct RecoveryChallenge {
    pub code_hash: CodeHash,
    pub consumed: bool,
    pub superseded: bool,
}

/// The next step of a re-bind after the phone lookup.
pub enum RecoveryStep {
    /// Reply with this response, delivering the alert if any.
    Respond(RecoveryResponse, Option<AdminAlert>),
    /// Load `member`'s live Recovery Code; `role` gates the verdict.
    LoadCode { member: MemberId, role: Role },
}

/// The next step of a re-bind after loading the live code.
pub enum RecoveryCodeStep {
    /// Reply with this response.
    Respond(RecoveryResponse),
    /// Evaluate the presented code against this challenge.
    Evaluate(RecoveryChallenge),
}

/// The next step of a re-bind after the code verdict.
pub enum RecoveryVerdictStep {
    /// Reply with this response.
    Respond(RecoveryResponse),
    /// Mint a fresh Recovery Code, then atomically consume the live one and install the fresh
    /// one's hash (iff still live), reporting whether this call did.
    ConsumeAndRotate,
}

/// The role recovery is gated on, from the member's role set.
pub open spec fn recovery_role_spec(member: MemberRecord) -> Role {
    if member.roles@.contains(Role::Driver) { Role::Driver } else { Role::Rider }
}

impl AuthService {
    fn recovery_response(&self, outcome: RecoveryOutcome) -> (r: RecoveryResponse)
        ensures
            r.version == self.config.requirement,
            r.outcome == outcome,
    {
        RecoveryResponse { version: self.requirement(), outcome }
    }

    /// First step of a re-bind, given what the phone lookup found. Below-minimum degrades (with
    /// the once-a-day alert for a known member); an unknown phone is `Invalid` (no existence leak);
    /// a non-Driver is `NotAvailable` before any code is loaded; a Driver's live code is loaded.
    pub fn recovery_begin(&mut self, req: &RecoveryRequest, member: &Option<MemberRecord>, now: UnixSeconds) -> (step: RecoveryStep)
        ensures
            final(self).config == old(self).config,
            final(self).hub@ == sign_in_hub(old(self).hub@,
                version_lt(req.reported.app_version, old(self).config.requirement.min), *member, now),
            version_lt(req.reported.app_version, old(self).config.requirement.min) ==> step == RecoveryStep::Respond(
                RecoveryResponse { version: old(self).config.requirement, outcome: RecoveryOutcome::BelowMinVersion },
                if member is Some {
                    deduped(old(self).hub@, member->Some_0.member_id, AlertKind::BelowMinVersion, now,
                        AdminAlert::BelowMinVersion { member: member->Some_0.member_id, reported_version: req.reported.app_version })
                } else {
                    None
                },
            ),
            !version_lt(req.reported.app_version, old(self).config.requirement.min) && member is None ==> step == RecoveryStep::Respond(
                RecoveryResponse { version: old(self).config.requirement, outcome: RecoveryOutcome::Rejected(RecoveryCodeVerdict::Invalid) },
                None,
            ),
            !version_lt(req.reported.app_version, old(self).config.requirement.min) && member is Some
                && recovery_role_spec(member->Some_0) != Role::Driver ==> step == RecoveryStep::Respond(
                RecoveryResponse { version: old(self).config.requirement, outcome: RecoveryOutcome::Rejected(RecoveryCodeVerdict::NotAvailable) },
                None,
            ),
            !version_lt(req.reported.app_version, old(self).config.requirement.min) && member is Some
                && recovery_role_spec(member->Some_0) == Role::Driver ==> step == (RecoveryStep::LoadCode {
                member: member->Some_0.member_id,
                role: Role::Driver,
            }),
    {
        if self.config.requirement.is_below_minimum(&req.reported.app_version) {
            let mut alert = None;
            if let Some(m) = member {
                alert = self.note_below_min(m.member_id, req.reported.app_version, now);
            }
            return RecoveryStep::Respond(self.recovery_response(RecoveryOutcome::BelowMinVersion), alert);
        }
        match member {
            None => RecoveryStep::Respond(self.recovery_response(RecoveryOutcome::Rejected(RecoveryCodeVerdict::Invalid)), None),
            Some(m) => {
                let role = m.recovery_role();
                if !recovery_available_for(role) {
                    RecoveryStep::Respond(self.recovery_response(RecoveryOutcome::Rejected(RecoveryCodeVerdict::NotAvailable)), None)
                } else {
                    RecoveryStep::LoadCode { member: m.member_id, role }
                }
            },
        }
    }

    /// Second step, given the member's live Recovery Code (if any): none is `Invalid` (the Driver
    /// falls back to the admin path); otherwise evaluate the code (only the live row is loaded, so
    /// the challenge is neither consumed nor superseded).
    pub fn recovery_on_code(&self, row: Option<RecoveryCodeRow>) -> (step: RecoveryCodeStep)
        ensures
            row is None ==> step == RecoveryCodeStep::Respond(RecoveryResponse {
                version: self.config.requirement,
                outcome: RecoveryOutcome::Rejected(RecoveryCodeVerdict::Invalid),
            }),
            row is Some ==> step == RecoveryCodeStep::Evaluate(RecoveryChallenge {
                code_hash: row->Some_0.code_hash,
                consumed: false,
                superseded: false,
            }),
    {
        match row {
            None => RecoveryCodeStep::Respond(self.recovery_response(RecoveryOutcome::Rejected(RecoveryCodeVerdict::Invalid))),
            Some(row) => RecoveryCodeStep::Evaluate(RecoveryChallenge { code_hash: row.code_hash, consumed: false, superseded: false }),
        }
    }

    /// Third step, on the result of checking the code. `Accepted` moves on to rotating the code;
    /// every other result is returned to the client as the rejection.
    pub fn recovery_on_verdict(&self, verdict: RecoveryCodeVerdict) -> (step: RecoveryVerdictStep)
        ensures
            verdict == RecoveryCodeVerdict::Accepted ==> step == RecoveryVerdictStep::ConsumeAndRotate,
            verdict != RecoveryCodeVerdict::Accepted ==> step == RecoveryVerdictStep::Respond(RecoveryResponse {
                version: self.config.requirement,
                outcome: RecoveryOutcome::Rejected(verdict),
            }),
    {
        match verdict {
            RecoveryCodeVerdict::Accepted => RecoveryVerdictStep::ConsumeAndRotate,
            other => RecoveryVerdictStep::Respond(self.recovery_response(RecoveryOutcome::Rejected(other))),
        }
    }

    /// Fourth step, given whether the consume-and-rotate was this call's: a lost race means the
    /// code was already used — `Invalid`, never a double re-bind (`None` = go on to mint the
    /// session and bind the device).
    pub fn recovery_on_consume(&self, consumed: bool) -> (r: Option<RecoveryResponse>)
        ensures
            consumed ==> r is None,
            !consumed ==> r == Some(RecoveryResponse {
                version: self.config.requirement,
                outcome: RecoveryOutcome::Rejected(RecoveryCodeVerdict::Invalid),
            }),
    {
        if consumed {
            None
        } else {
            Some(self.recovery_response(RecoveryOutcome::Rejected(RecoveryCodeVerdict::Invalid)))
        }
    }

    /// Last step: the device was re-bound and a session minted; hand the fresh code to the Driver.
    pub fn recovery_rebound(&self, material: SessionMaterial, fresh_recovery_code: RecoveryCode) -> (r: RecoveryResponse)
        ensures
            r == (RecoveryResponse {
                version: self.config.requirement,
                outcome: RecoveryOutcome::Rebound { material, fresh_recovery_code },
            }),
    {
        self.recovery_response(RecoveryOutcome::Rebound { material, fresh_recovery_code })
    }
}

/// Self-serve recovery is gated on holding the Driver role, wherever it stands in the role list:
/// a member holding it recovers as a Driver, one without it as a Rider, and two members with the
/// same roles in any order are gated alike.
pub proof fn lemma_recovery_role_is_membership(a: MemberRecord, b: MemberRecord)
    ensures
        a.roles@.contains(Role::Driver) ==> recovery_role_spec(a) == Role::Driver,
        !a.roles@.contains(Role::Driver) ==> recovery_role_spec(a) == Role::Rider,
        a.roles@.to_set() == b.roles@.to_set() ==> recovery_role_spec(a) == recovery_role_spec(b),
{
    if a.roles@.to_set() == b.roles@.to_set() {
        assert(a.roles@.contains(Role::Driver) == a.roles@.to_set().contains(Role::Driver));
        assert(b.roles@.contains(Role::Driver) == b.roles@.to_set().contains(Role::Driver));
    }
}

} // verus!
