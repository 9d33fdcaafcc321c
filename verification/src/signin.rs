//! `POST /api/auth/signin` — phone-hash lookup with no existence leak, the version handshake, and
//! the below-minimum admin alert.
use vstd::prelude::*;

use crate::alerts::{AdminAlert, AlertKind};
use crate::domain::{
    ClientVersion, PhoneNumber, SignInResult, UnixSeconds, VersionRequirement, sign_in_result_spec,
    version_lt,
};
use crate::hub::HubView;
use crate::ports::MemberRecord;
use crate::service::{AuthService, ManifestPointer, deduped, hub_after_alert};

verus! {

/// A sign-in request: the normalized phone and what the client reports about itself.
pub struct SignInRequest {
    /// The member's phone number, already canonicalized to E.164.
    pub phone: PhoneNumber,
    /// The client's platform and version.
    pub reported: ClientVersion,
}

/// A sign-in response. PII-free: the result is an opaque outcome, not the member.
#[derive(Debug, Clone, PartialEq, Eq)]
pub struct SignInResponse {
    /// `client_min_version` + `client_recommended_version` — present on every response.
    pub version: VersionRequirement,
    /// The launch manifest pointer.
    pub manifest_pointer: ManifestPointer,
    /// Matched / not-on-file / below-min.
    pub result: SignInResult,
}

impl SignInResponse {
    /// The stable error code for this response, or `None` on a clean match.
    pub fn error_code(&self) -> (code: Option<&'static str>)
        ensures
            code == match self.result {
                SignInResult::MemberMatched => None,
                SignInResult::PhoneNotOnFile => Some("AUTH_PHONE_NOT_ON_FILE"),
                SignInResult::BelowMinVersion => Some("AUTH_BELOW_MIN_VERSION"),
            },
    {
        match self.result {
            SignInResult::MemberMatched => None,
            SignInResult::PhoneNotOnFile => Some("AUTH_PHONE_NOT_ON_FILE"),
            SignInResult::BelowMinVersion => Some("AUTH_BELOW_MIN_VERSION"),
        }
    }
}

/// The hub after a sign-in: a below-minimum sign-in of a known member passes through the alert
/// dedup; nothing else touches it.
pub open spec fn sign_in_hub(hub: HubView, below_min: bool, member: Option<MemberRecord>, now: UnixSeconds) -> HubView {
    if below_min && member is Some {
        hub_after_alert(hub, member->Some_0.member_id, AlertKind::BelowMinVersion, now)
    } else {
        hub
    }
}

impl AuthService {
    /// Decide a sign-in, given what the phone-hash lookup found (`member`). The lookup always
    /// runs (uniform timing); a below-minimum client collapses the outcome to `BelowMinVersion`
    /// and, when the member is known, yields the once-per-day admin alert.
    pub fn sign_in(&mut self, req: &SignInRequest, member: &Option<MemberRecord>, now: UnixSeconds) -> (out: (SignInResponse, Option<AdminAlert>))
        ensures
            out.0.version == old(self).config.requirement,
            out.0.manifest_pointer == old(self).config.manifest_pointer,
            out.0.result == sign_in_result_spec(member is Some,
                version_lt(req.reported.app_version, old(self).config.requirement.min)),
            out.1 == (if version_lt(req.reported.app_version, old(self).config.requirement.min) && member is Some {
                deduped(old(self).hub@, member->Some_0.member_id, AlertKind::BelowMinVersion, now,
                    AdminAlert::BelowMinVersion { member: member->Some_0.member_id, reported_version: req.reported.app_version })
            } else {
                None
            }),
            final(self).hub@ == sign_in_hub(old(self).hub@,
                version_lt(req.reported.app_version, old(self).config.requirement.min), *member, now),
            final(self).config == old(self).config,
    {
        let below = self.config.requirement.is_below_minimum(&req.reported.app_version);
        let result = SignInResult::from_lookup(member.is_some(), below);
        let mut alert = None;
        if below {
            if let Some(m) = member {
                alert = self.note_below_min(m.member_id, req.reported.app_version, now);
            }
        }
        let resp = SignInResponse {
            version: self.requirement(),
            manifest_pointer: self.config.manifest_pointer.duplicate(),
            result,
        };
        (resp, alert)
    }
}

/// A below-minimum sign-in answers the same whether or not the phone is on file: the version
/// gate hides member existence.
pub proof fn lemma_below_min_sign_in_hides_existence(on_file_a: bool, on_file_b: bool)
    ensures
        sign_in_result_spec(on_file_a, true) == sign_in_result_spec(on_file_b, true),
        sign_in_result_spec(on_file_a, true) == SignInResult::BelowMinVersion,
{
}

/// A below-minimum sign-in never touches the attempt window or the refresh-rejection counters;
/// at most the alert dedup records the day's below-minimum alert.
pub proof fn lemma_below_min_sign_in_leaves_windows(hub: HubView, member: Option<MemberRecord>, now: UnixSeconds)
    ensures
        sign_in_hub(hub, true, member, now).code_attempts == hub.code_attempts,
        sign_in_hub(hub, true, member, now).refresh_rejections == hub.refresh_rejections,
{
}

} // verus!
