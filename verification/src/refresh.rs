//! `POST /api/auth/refresh` — silent refresh-credential rotation with replay detection, the
//! version handshake, and the rejected-refresh throttle counter.
//!
//! The client-facing outcome is uniform for every non-rotating case — unknown credential,
//! revoked family, and a detected replay all answer `Invalidated` — so a caller cannot tell "once
//! valid" from "unknown". The exact verdict is kept in `server_verdict` for the server's own log.
use vstd::prelude::*;

use crate::alerts::{AdminAlert, AlertKind};
use crate::domain::{
    ClientVersion, RefreshPresentation, RefreshToken, RefreshVerdict, SessionFamilyId,
    SessionFamilyStatus, UnixSeconds, VersionRequirement, saturating_add_spec, version_lt,
};
use crate::hub::{
    HubView, SourceKey, bucket_spec, count_in_window, entry_of, hub_after_rejection, saturating_inc,
    CODE_ATTEMPT_WINDOW_SECS,
};
use crate::ports::{RefreshClassification, SessionMaterial};
use crate::service::{AuthService, deduped, hub_after_alert};

verus! {

/// A refresh request. Holds the presented credential (a secret).
pub struct RefreshRequest {
    /// The refresh credential the client presented.
    pub presented: RefreshToken,
    /// The client's platform and version.
    pub reported: ClientVersion,
    /// An opaque per-source key for the rejected-refresh throttle.
    pub source: SourceKey,
}

/// The client-facing outcome of a refresh.
pub enum RefreshOutcome {
    /// Rotated to a fresh credential and access token.
    Rotated(SessionMaterial),
    /// Not accepted — unknown credential, revoked family, or a detected replay, all alike.
    Invalidated,
    /// The client is below `client_min_version`; the session was left untouched.
    BelowMinVersion,
}

/// A refresh response.
pub struct RefreshResponse {
    /// `client_min_version` + `client_recommended_version`.
    pub version: VersionRequirement,
    /// The client-facing outcome.
    pub outcome: RefreshOutcome,
    /// Server-side only: the exact rotation verdict (never returned to the client). `None` when
    /// the version gate short-circuited before the policy ran.
    pub server_verdict: Option<RefreshVerdict>,
}

/// The next step of a refresh after classifying the presented credential.
pub enum RefreshStep {
    /// Reply with this response, delivering the alert if any.
    Respond(RefreshResponse, Option<AdminAlert>),
    /// Run the rotation policy on this family status and presentation.
    Evaluate { status: SessionFamilyStatus, presentation: RefreshPresentation },
}

/// The next step of a refresh after the rotation policy's verdict.
pub enum RefreshVerdictStep {
    /// Rotate `family`'s credential, minting an access token that expires at `access_expires_at`.
    Rotate { family: SessionFamilyId, access_expires_at: UnixSeconds },
    /// Revoke `revoke` (if any), deliver `alert` (if any), and reply with `response`.
    Respond { response: RefreshResponse, revoke: Option<SessionFamilyId>, alert: Option<AdminAlert> },
}

/// The client-facing reply to every verdict that does not rotate: `Invalidated`, with the
/// version requirement; the verdict itself is kept for the server's log only.
pub open spec fn refresh_reply(requirement: VersionRequirement, verdict: RefreshVerdict) -> RefreshResponse {
    RefreshResponse { version: requirement, outcome: RefreshOutcome::Invalidated, server_verdict: Some(verdict) }
}

/// The family status the rotation policy sees: an unknown credential counts as a revoked family.
pub open spec fn policy_status(class: RefreshClassification) -> SessionFamilyStatus {
    match class.family {
        Some(f) => f.status,
        None => SessionFamilyStatus::Revoked,
    }
}

impl AuthService {
    /// First step of a refresh, given the classification of the presented credential. A
    /// below-minimum client degrades without touching the session (alerting the admin of the
    /// family's member once a day); otherwise the rotation policy runs, an unknown credential
    /// counting as a revoked family.
    pub fn refresh_begin(&mut self, req: &RefreshRequest, class: &RefreshClassification, now: UnixSeconds) -> (step: RefreshStep)
        ensures
            final(self).config == old(self).config,
            version_lt(req.reported.app_version, old(self).config.requirement.min) ==> {
                &&& step == RefreshStep::Respond(
                    RefreshResponse { version: old(self).config.requirement, outcome: RefreshOutcome::BelowMinVersion, server_verdict: None },
                    if class.family is Some {
                        deduped(old(self).hub@, class.family->Some_0.member, AlertKind::BelowMinVersion, now,
                            AdminAlert::BelowMinVersion { member: class.family->Some_0.member, reported_version: req.reported.app_version })
                    } else {
                        None
                    },
                )
                &&& final(self).hub@ == if class.family is Some {
                    hub_after_alert(old(self).hub@, class.family->Some_0.member, AlertKind::BelowMinVersion, now)
                } else {
                    old(self).hub@
                }
            },
            !version_lt(req.reported.app_version, old(self).config.requirement.min) ==> {
                &&& step == (RefreshStep::Evaluate { status: policy_status(*class), presentation: class.presentation })
                &&& final(self).hub@ == old(self).hub@
            },
    {
        if self.config.requirement.is_below_minimum(&req.reported.app_version) {
            let mut alert = None;
            if let Some(f) = &class.family {
                alert = self.note_below_min(f.member, req.reported.app_version, now);
            }
            return RefreshStep::Respond(
                RefreshResponse { version: self.requirement(), outcome: RefreshOutcome::BelowMinVersion, server_verdict: None },
                alert,
            );
        }
        let status = match &class.family {
            Some(f) => f.status,
            None => SessionFamilyStatus::Revoked,
        };
        RefreshStep::Evaluate { status, presentation: class.presentation }
    }

    /// Second step, given the policy's verdict. `Rotate` rotates the classified family; a replay
    /// revokes the whole family and alerts the admin (once a day) that its member is locked out;
    /// a rejection is counted against the source. Every non-rotating verdict answers the client
    /// `Invalidated`.
    pub fn refresh_on_verdict(&mut self, req: &RefreshRequest, class: &RefreshClassification, verdict: RefreshVerdict, now: UnixSeconds) -> (step: RefreshVerdictStep)
        requires
            verdict != RefreshVerdict::Rejected ==> class.family is Some,
        ensures
            final(self).config == old(self).config,
            verdict == RefreshVerdict::Rotate ==> {
                &&& step == (RefreshVerdictStep::Rotate {
                    family: class.family->Some_0.id,
                    access_expires_at: UnixSeconds(saturating_add_spec(now.0, old(self).config.access_ttl_secs)),
                })
                &&& final(self).hub@ == old(self).hub@
            },
            verdict == RefreshVerdict::ReplayDetectedKillFamily ==> {
                &&& step == (RefreshVerdictStep::Respond {
                    response: refresh_reply(old(self).config.requirement, verdict),
                    revoke: Some(class.family->Some_0.id),
                    alert: deduped(old(self).hub@, class.family->Some_0.member, AlertKind::SessionInvalidated, now,
                        AdminAlert::SessionInvalidated { member: class.family->Some_0.member }),
                })
                &&& final(self).hub@ == hub_after_alert(old(self).hub@, class.family->Some_0.member, AlertKind::SessionInvalidated, now)
            },
            verdict == RefreshVerdict::Rejected ==> {
                &&& step == (RefreshVerdictStep::Respond {
                    response: refresh_reply(old(self).config.requirement, verdict),
                    revoke: None,
                    alert: None,
                })
                &&& final(self).hub@ == hub_after_rejection(old(self).hub@, req.source, now)
            },
    {
        match verdict {
            RefreshVerdict::Rotate => {
                let family = match &class.family {
                    Some(f) => f.id,
                    None => {
                        assert(false);
                        SessionFamilyId(0)
                    },
                };
                RefreshVerdictStep::Rotate { family, access_expires_at: self.access_expires_at(now) }
            },
            RefreshVerdict::ReplayDetectedKillFamily => {
                let (family, member) = match &class.family {
                    Some(f) => (f.id, f.member),
                    None => {
                        assert(false);
                        (SessionFamilyId(0), crate::domain::MemberId(0))
                    },
                };
                let alert = self.note_session_invalidated(member, now);
                RefreshVerdictStep::Respond {
                    response: RefreshResponse { version: self.requirement(), outcome: RefreshOutcome::Invalidated, server_verdict: Some(verdict) },
                    revoke: Some(family),
                    alert,
                }
            },
            RefreshVerdict::Rejected => {
                let _ = self.hub.note_refresh_rejection(req.source, now);
                RefreshVerdictStep::Respond {
                    response: RefreshResponse { version: self.requirement(), outcome: RefreshOutcome::Invalidated, server_verdict: Some(verdict) },
                    revoke: None,
                    alert: None,
                }
            },
        }
    }

    /// Last step of a rotation: the fresh session material.
    pub fn refresh_rotated(&self, material: SessionMaterial) -> (r: RefreshResponse)
        ensures
            r == (RefreshResponse {
                version: self.config.requirement,
                outcome: RefreshOutcome::Rotated(material),
                server_verdict: Some(RefreshVerdict::Rotate),
            }),
    {
        RefreshResponse { version: self.requirement(), outcome: RefreshOutcome::Rotated(material), server_verdict: Some(RefreshVerdict::Rotate) }
    }
}

/// A refresh that does not rotate answers the client alike whatever the verdict — an unknown
/// credential, a revoked family and a detected replay all get `Invalidated` under the same
/// version requirement; only the server-side verdict differs.
pub proof fn lemma_non_rotating_refresh_is_uniform(requirement: VersionRequirement, v1: RefreshVerdict, v2: RefreshVerdict)
    requires
        v1 != RefreshVerdict::Rotate,
        v2 != RefreshVerdict::Rotate,
    ensures
        refresh_reply(requirement, v1).outcome == RefreshOutcome::Invalidated,
        refresh_reply(requirement, v1).outcome == refresh_reply(requirement, v2).outcome,
        refresh_reply(requirement, v1).version == refresh_reply(requirement, v2).version,
        refresh_reply(requirement, v1).server_verdict == Some(v1),
{
}

/// A rejected refresh counts one more rejection against its source in the current window (and
/// touches no other source, no attempt window and no alert).
pub proof fn lemma_rejection_counts_one_more(hub: HubView, source: SourceKey, now: UnixSeconds)
    ensures
        count_in_window(
            entry_of(hub_after_rejection(hub, source, now).refresh_rejections, source.0),
            bucket_spec(now.0, CODE_ATTEMPT_WINDOW_SECS),
        ) == saturating_inc(count_in_window(
            entry_of(hub.refresh_rejections, source.0),
            bucket_spec(now.0, CODE_ATTEMPT_WINDOW_SECS),
        )),
        hub_after_rejection(hub, source, now).code_attempts == hub.code_attempts,
        hub_after_rejection(hub, source, now).alerts_sent == hub.alerts_sent,
{
    let b = bucket_spec(now.0, CODE_ATTEMPT_WINDOW_SECS);
    assert(i64::MIN <= b <= i64::MAX) by (nonlinear_arith)
        requires b == now.0 as int / 900int;
}

} // verus!
