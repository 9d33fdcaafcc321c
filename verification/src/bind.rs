//! `POST /api/auth/bind-device` — the Onboarding-Code device bind: version gate, uniform member
//! resolution, the rate-limit window, the code verdict, the atomic consume, and the rate-limit
//! lock alert. Plus the notification-permission decision.
//!
//! The bind is a sequence of steps, each decided here from what the previous effect returned:
//! [`AuthService::bind_begin`] (after the phone lookup), [`AuthService::bind_on_code`] (after
//! loading the live code), [`AuthService::bind_on_verdict`] (after the code was evaluated against
//! its challenge), [`AuthService::bind_on_consume`] (after the atomic consume), and
//! [`AuthService::bind_bound`] (after the session was minted and the device bound).
use vstd::prelude::*;

use crate::alerts::{AdminAlert, AlertKind};
use crate::domain::{
    ClientVersion, CodeHash, DeviceToken, MemberId, OnboardingCode, OnboardingCodeVerdict,
    PhoneNumber, UnixSeconds, VersionRequirement, onboarding_verdict_code, version_lt,
};
use crate::hub::{HubView, hub_after_attempt, prior_attempts_spec};
use crate::ports::{MemberRecord, OnboardingCodeRow, SessionMaterial};
use crate::service::{AuthService, deduped, hub_after_alert};
use crate::signin::sign_in_hub;

verus! {

/// A device-bind request. Holds secrets (the code, the push token, the phone).
pub struct BindRequest {
    /// The member's phone number, already canonicalized to E.164.
    pub phone: PhoneNumber,
    /// The Onboarding Code the helper entered.
    pub code: OnboardingCode,
    /// The client's platform and version (also the binding's `(platform, app_version)`).
    pub reported: ClientVersion,
    /// The push device token to bind.
    pub device_token: DeviceToken,
}

/// The outcome of a device bind.
pub enum BindOutcome {
    /// The code was accepted; the device is bound and a session issued.
    Bound(SessionMaterial),
    /// The code was rejected; the verdict identifies why.
    Failed(OnboardingCodeVerdict),
    /// The client is below `client_min_version`; the bind was not attempted.
    BelowMinVersion,
}

/// A device-bind response — always carries the version requirement.
pub struct BindResponse {
    /// `client_min_version` + `client_recommended_version`.
    pub version: VersionRequirement,
    /// What happened.
    pub outcome: BindOutcome,
}

impl BindResponse {
    /// The stable error code for this response, or `None` on a clean bind.
    pub fn error_code(&self) -> (code: Option<&'static str>)
        ensures
            code is None <==> (self.outcome is Bound || self.outcome == BindOutcome::Failed(OnboardingCodeVerdict::Accepted)),
            self.outcome is BelowMinVersion ==> code == Some("AUTH_BELOW_MIN_VERSION"),
            self.outcome matches BindOutcome::Failed(v) ==> (v != OnboardingCodeVerdict::Accepted
                ==> (code matches Some(c) && c@ == onboarding_verdict_code(v))),
    {
        match &self.outcome {
            BindOutcome::Bound(_) => None,
            BindOutcome::Failed(v) => v.error_code(),
            BindOutcome::BelowMinVersion => Some("AUTH_BELOW_MIN_VERSION"),
        }
    }
}

/// The challenge a presented Onboarding Code is evaluated against (the input to the code verdict).
pub struct OnboardingCodeChallenge {
    pub code_hash: CodeHash,
    pub expires_at: UnixSeconds,
    pub max_attempts: u32,
    /// Attempts already made in the current window.
    pub recent_attempts: u32,
    pub consumed: bool,
    pub superseded: bool,
}

/// The next step of a bind after the phone lookup.
pub enum BindStep {
    /// Reply with this response, delivering the alert if any.
    Respond(BindResponse, Option<AdminAlert>),
    /// Load `member`'s live Onboarding Code; `prior_attempts` were already made in this window.
    LoadCode { member: MemberId, prior_attempts: u32 },
}

/// The next step of a bind after loading the live code.
pub enum BindCodeStep {
    /// Reply with this response.
    Respond(BindResponse),
    /// Evaluate the presented code against this challenge.
    Evaluate(OnboardingCodeChallenge),
}

/// The next step of a bind after the code verdict.
pub enum BindVerdictStep {
    /// Reply with this response, delivering the alert if any.
    Respond(BindResponse, Option<AdminAlert>),
    /// Atomically consume the live code (iff still live), then report whether this call did.
    Consume,
}

/// The hub after the first step of a bind: below-minimum passes through the alert dedup (never
/// the attempt window); a known member's attempt is counted; an unknown phone touches nothing.
pub open spec fn bind_begin_hub(hub: HubView, below_min: bool, member: Option<MemberRecord>, now: UnixSeconds) -> HubView {
    if below_min {
        sign_in_hub(hub, below_min, member, now)
    } else if member is Some {
        hub_after_attempt(hub, member->Some_0.member_id, now)
    } else {
        hub
    }
}

impl AuthService {
    fn bind_response(&self, outcome: BindOutcome) -> (r: BindResponse)
        ensures
            r.version == self.config.requirement,
            r.outcome == outcome,
    {
        BindResponse { version: self.requirement(), outcome }
    }

    /// First step of a bind, given what the phone lookup found. A below-minimum client degrades
    /// before the attempt window is charged or the code compared (alerting the admin once a day
    /// when the member is known); an unknown phone fails `Invalid` (the same shape as a bad code —
    /// no existence leak); otherwise the attempt is counted and the live code is to be loaded.
    pub fn bind_begin(&mut self, req: &BindRequest, member: &Option<MemberRecord>, now: UnixSeconds) -> (step: BindStep)
        ensures
            final(self).config == old(self).config,
            final(self).hub@ == bind_begin_hub(old(self).hub@,
                version_lt(req.reported.app_version, old(self).config.requirement.min), *member, now),
            version_lt(req.reported.app_version, old(self).config.requirement.min) ==> step == BindStep::Respond(
                BindResponse { version: old(self).config.requirement, outcome: BindOutcome::BelowMinVersion },
                if member is Some {
                    deduped(old(self).hub@, member->Some_0.member_id, AlertKind::BelowMinVersion, now,
                        AdminAlert::BelowMinVersion { member: member->Some_0.member_id, reported_version: req.reported.app_version })
                } else {
                    None
                },
            ),
            !version_lt(req.reported.app_version, old(self).config.requirement.min) && member is None ==> step == BindStep::Respond(
                BindResponse { version: old(self).config.requirement, outcome: BindOutcome::Failed(OnboardingCodeVerdict::Invalid) },
                None,
            ),
            !version_lt(req.reported.app_version, old(self).config.requirement.min) && member is Some ==> step == (BindStep::LoadCode {
                member: member->Some_0.member_id,
                prior_attempts: prior_attempts_spec(old(self).hub@, member->Some_0.member_id, now),
            }),
    {
        if self.config.requirement.is_below_minimum(&req.reported.app_version) {
            let mut alert = None;
            if let Some(m) = member {
                alert = self.note_below_min(m.member_id, req.reported.app_version, now);
            }
            return BindStep::Respond(self.bind_response(BindOutcome::BelowMinVersion), alert);
        }
        match member {
            None => BindStep::Respond(self.bind_response(BindOutcome::Failed(OnboardingCodeVerdict::Invalid)), None),
            Some(m) => {
                let prior = self.hub.register_code_attempt(m.member_id, now);
                BindStep::LoadCode { member: m.member_id, prior_attempts: prior }
            },
        }
    }

    /// Second step, given the member's live code (if any). No live code (never issued, consumed or
    /// superseded) fails `Consumed`; otherwise the code is evaluated against its challenge, with
    /// the window's prior attempts as the recent-attempt count. (Only the live row is ever loaded,
    /// so the challenge is neither consumed nor superseded; single use is the atomic consume.)
    pub fn bind_on_code(&self, row: Option<OnboardingCodeRow>, prior_attempts: u32) -> (step: BindCodeStep)
        ensures
            row is None ==> step == BindCodeStep::Respond(BindResponse {
                version: self.config.requirement,
                outcome: BindOutcome::Failed(OnboardingCodeVerdict::Consumed),
            }),
            row is Some ==> step == BindCodeStep::Evaluate(OnboardingCodeChallenge {
                code_hash: row->Some_0.code_hash,
                expires_at: row->Some_0.expires_at,
                max_attempts: row->Some_0.max_attempts,
                recent_attempts: prior_attempts,
                consumed: false,
                superseded: false,
            }),
    {
        match row {
            None => BindCodeStep::Respond(self.bind_response(BindOutcome::Failed(OnboardingCodeVerdict::Consumed))),
            Some(row) => BindCodeStep::Evaluate(OnboardingCodeChallenge {
                code_hash: row.code_hash,
                expires_at: row.expires_at,
                max_attempts: row.max_attempts,
                recent_attempts: prior_attempts,
                consumed: false,
                superseded: false,
            }),
        }
    }

    /// Third step, given the code verdict. `Accepted` proceeds to the atomic consume; a rate-limit
    /// lock alerts the admin (once a day) and fails `RateLimited`; any other verdict fails with it.
    pub fn bind_on_verdict(&mut self, member: MemberId, verdict: OnboardingCodeVerdict, now: UnixSeconds) -> (step: BindVerdictStep)
        ensures
            final(self).config == old(self).config,
            verdict == OnboardingCodeVerdict::Accepted ==> step == BindVerdictStep::Consume
                && final(self).hub@ == old(self).hub@,
            verdict == OnboardingCodeVerdict::RateLimited ==> step == BindVerdictStep::Respond(
                BindResponse { version: old(self).config.requirement, outcome: BindOutcome::Failed(OnboardingCodeVerdict::RateLimited) },
                deduped(old(self).hub@, member, AlertKind::OnboardingCodeLocked, now, AdminAlert::OnboardingCodeLocked { member }),
            ) && final(self).hub@ == hub_after_alert(old(self).hub@, member, AlertKind::OnboardingCodeLocked, now),
            verdict != OnboardingCodeVerdict::Accepted && verdict != OnboardingCodeVerdict::RateLimited ==> step == BindVerdictStep::Respond(
                BindResponse { version: old(self).config.requirement, outcome: BindOutcome::Failed(verdict) },
                None,
            ) && final(self).hub@ == old(self).hub@,
    {
        match verdict {
            OnboardingCodeVerdict::Accepted => BindVerdictStep::Consume,
            OnboardingCodeVerdict::RateLimited => {
                let alert = self.dedup_alert(member, AlertKind::OnboardingCodeLocked,
                    AdminAlert::OnboardingCodeLocked { member }, now);
                BindVerdictStep::Respond(self.bind_response(BindOutcome::Failed(OnboardingCodeVerdict::RateLimited)), alert)
            },
            other => BindVerdictStep::Respond(self.bind_response(BindOutcome::Failed(other)), None),
        }
    }

    /// Fourth step, given whether the atomic consume was this call's. A lost race means another
    /// presentation already bound: fail `Consumed`, never a second bind (`None` = go on to mint
    /// the session and bind the device).
    pub fn bind_on_consume(&self, consumed: bool) -> (r: Option<BindResponse>)
        ensures
            consumed ==> r is None,
            !consumed ==> r == Some(BindResponse {
                version: self.config.requirement,
                outcome: BindOutcome::Failed(OnboardingCodeVerdict::Consumed),
            }),
    {
        if consumed {
            None
        } else {
            Some(self.bind_response(BindOutcome::Failed(OnboardingCodeVerdict::Consumed)))
        }
    }

    /// Last step: the session was minted and the device bound.
    pub fn bind_bound(&self, material: SessionMaterial) -> (r: BindResponse)
        ensures
            r == (BindResponse { version: self.config.requirement, outcome: BindOutcome::Bound(material) }),
    {
        self.bind_response(BindOutcome::Bound(material))
    }

    /// Record the onboarding notification-permission decision: a decline is flagged (returns
    /// true) with a once-a-day non-PII admin flag; a grant changes nothing. The flow advances
    /// either way.
    pub fn record_notification_decision(&mut self, member: MemberId, granted: bool, now: UnixSeconds) -> (out: (bool, Option<AdminAlert>))
        ensures
            out.0 == !granted,
            final(self).config == old(self).config,
            granted ==> out.1 is None && final(self).hub@ == old(self).hub@,
            !granted ==> out.1 == deduped(old(self).hub@, member, AlertKind::NotificationsNotEnabled, now,
                AdminAlert::NotificationsNotEnabled { member })
                && final(self).hub@ == hub_after_alert(old(self).hub@, member, AlertKind::NotificationsNotEnabled, now),
    {
        let flag = crate::domain::should_flag_notifications_off(granted);
        if flag {
            let alert = self.dedup_alert(member, AlertKind::NotificationsNotEnabled,
                AdminAlert::NotificationsNotEnabled { member }, now);
            (flag, alert)
        } else {
            (flag, None)
        }
    }
}

/// A below-minimum bind is never charged against the Onboarding-Code attempt window (nor the
/// refresh counters): the version gate runs before the window is touched.
pub proof fn lemma_below_min_bind_never_charges_window(hub: HubView, member: Option<MemberRecord>, now: UnixSeconds)
    ensures
        bind_begin_hub(hub, true, member, now).code_attempts == hub.code_attempts,
        bind_begin_hub(hub, true, member, now).refresh_rejections == hub.refresh_rejections,
{
}

/// An unknown phone never touches the hub at all, so it cannot be told apart from a known one
/// by its effect on later attempts.
pub proof fn lemma_unknown_phone_bind_leaves_hub(hub: HubView, now: UnixSeconds)
    ensures
        bind_begin_hub(hub, false, None, now) == hub,
{
}

} // verus!
