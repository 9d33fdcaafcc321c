//! The member-auth decision engine: the version-handshake configuration, the access-token TTL,
//! the group hub, and the deduped below-minimum / session-invalidated alerts.
use vstd::prelude::*;

use crate::alerts::{AdminAlert, AlertKind};
use crate::domain::{
    AppVersion, ClientVersion, DeviceBinding, MemberId, UnixSeconds, VersionRequirement,
    saturating_add_spec,
};
use crate::hub::{day_spec, GroupHubState, HubView};

verus! {

/// The short-lived access-token lifetime: 15 minutes.
pub const ACCESS_TTL_SECS: i64 = 900;

/// A pointer to the signed manifest the client fetches at launch: it reads `index_key` first,
/// then the per-locale manifest at `{locale_key_prefix}{locale}`.
#[derive(Debug, Clone, PartialEq, Eq)]
pub struct ManifestPointer {
    /// The index key the client reads first.
    pub index_key: String,
    /// The key prefix for the per-locale manifest.
    pub locale_key_prefix: String,
}

impl ManifestPointer {
    /// A manifest pointer from its index key and per-locale key prefix.
    pub fn new(index_key: &str, locale_key_prefix: &str) -> (m: ManifestPointer)
        ensures
            m.index_key@ == index_key@,
            m.locale_key_prefix@ == locale_key_prefix@,
    {
        ManifestPointer {
            index_key: index_key.to_string(),
            locale_key_prefix: locale_key_prefix.to_string(),
        }
    }

    /// An equal copy.
    pub fn duplicate(&self) -> (m: ManifestPointer)
        ensures
            m == *self,
    {
        ManifestPointer {
            index_key: self.index_key.clone(),
            locale_key_prefix: self.locale_key_prefix.clone(),
        }
    }
}

/// Per-instance auth configuration: the version requirement advertised in every response, the
/// launch manifest pointer, and the access-token TTL. (The keyed-hash secret belongs to whoever
/// computes the hashes.)
pub struct AuthConfig {
    /// `client_min_version` + `client_recommended_version`, carried in every auth response.
    pub requirement: VersionRequirement,
    /// The launch manifest pointer, returned at sign-in.
    pub manifest_pointer: ManifestPointer,
    /// Access-token lifetime in seconds.
    pub access_ttl_secs: i64,
}

impl AuthConfig {
    /// A config with the default access-token TTL ([`ACCESS_TTL_SECS`]).
    pub fn new(requirement: VersionRequirement, manifest_pointer: ManifestPointer) -> (c: AuthConfig)
        ensures
            c.requirement == requirement,
            c.manifest_pointer == manifest_pointer,
            c.access_ttl_secs == ACCESS_TTL_SECS,
    {
        AuthConfig { requirement, manifest_pointer, access_ttl_secs: ACCESS_TTL_SECS }
    }
}

/// Whether an alert of `kind` for `member` at `now` is the first of its day.
pub open spec fn first_alert_today(hub: HubView, member: MemberId, kind: AlertKind, now: UnixSeconds) -> bool {
    !hub.alerts_sent.contains((member.0, kind, day_spec(now.0) as i64))
}

/// The hub after the dedup check for `(member, kind, now)`.
pub open spec fn hub_after_alert(hub: HubView, member: MemberId, kind: AlertKind, now: UnixSeconds) -> HubView {
    HubView {
        code_attempts: hub.code_attempts,
        refresh_rejections: hub.refresh_rejections,
        alerts_sent: hub.alerts_sent.insert((member.0, kind, day_spec(now.0) as i64)),
    }
}

/// The alert to emit for `(member, kind, now)`: `alert` if it is the first of its day, else none.
pub open spec fn deduped(hub: HubView, member: MemberId, kind: AlertKind, now: UnixSeconds, alert: AdminAlert) -> Option<AdminAlert> {
    if first_alert_today(hub, member, kind, now) {
        Some(alert)
    } else {
        None
    }
}

/// The member-auth engine: the group hub's counters plus the per-instance configuration. The
/// endpoint decisions (sign-in, device bind, refresh, recovery) hang off it; each returns the
/// response and the admin alert (if any) the caller must deliver.
pub struct AuthService {
    /// The per-group rate-limit and alert-dedup counters.
    pub hub: GroupHubState,
    /// Per-instance configuration.
    pub config: AuthConfig,
}

impl AuthService {
    /// The engine with an empty hub.
    pub fn new(config: AuthConfig) -> (s: AuthService)
        ensures
            s.config == config,
            s.hub@.code_attempts.is_empty(),
            s.hub@.refresh_rejections.is_empty(),
            s.hub@.alerts_sent.is_empty(),
    {
        AuthService { hub: GroupHubState::new(), config }
    }

    /// The version requirement this instance advertises.
    pub fn requirement(&self) -> (r: VersionRequirement)
        ensures
            r == self.config.requirement,
    {
        self.config.requirement
    }

    pub(crate) fn dedup_alert(&mut self, member: MemberId, kind: AlertKind, alert: AdminAlert, now: UnixSeconds) -> (out: Option<AdminAlert>)
        ensures
            out == deduped(old(self).hub@, member, kind, now, alert),
            final(self).hub@ == hub_after_alert(old(self).hub@, member, kind, now),
            final(self).config == old(self).config,
    {
        if self.hub.should_alert(member, kind, now) {
            Some(alert)
        } else {
            None
        }
    }

    /// The below-`client_min_version` admin alert for `member`, at most once per day.
    pub fn note_below_min(&mut self, member: MemberId, reported: AppVersion, now: UnixSeconds) -> (alert: Option<AdminAlert>)
        ensures
            alert == deduped(old(self).hub@, member, AlertKind::BelowMinVersion, now,
                AdminAlert::BelowMinVersion { member, reported_version: reported }),
            final(self).hub@ == hub_after_alert(old(self).hub@, member, AlertKind::BelowMinVersion, now),
            final(self).config == old(self).config,
    {
        self.dedup_alert(member, AlertKind::BelowMinVersion,
            AdminAlert::BelowMinVersion { member, reported_version: reported }, now)
    }

    /// Record that `member`'s session was invalidated: at most one admin alert per member per day.
    /// Only the alert — revoking the family is the caller's.
    pub fn note_session_invalidated(&mut self, member: MemberId, now: UnixSeconds) -> (alert: Option<AdminAlert>)
        ensures
            alert == deduped(old(self).hub@, member, AlertKind::SessionInvalidated, now,
                AdminAlert::SessionInvalidated { member }),
            final(self).hub@ == hub_after_alert(old(self).hub@, member, AlertKind::SessionInvalidated, now),
            final(self).config == old(self).config,
    {
        self.dedup_alert(member, AlertKind::SessionInvalidated, AdminAlert::SessionInvalidated { member }, now)
    }

    /// The instant a token minted at `now` expires: `now + access_ttl_secs`, saturating.
    pub fn access_expires_at(&self, now: UnixSeconds) -> (t: UnixSeconds)
        ensures
            t.0 == saturating_add_spec(now.0, self.config.access_ttl_secs),
    {
        now.saturating_add_secs(self.config.access_ttl_secs)
    }

    /// The device binding a (re)bind registers for `member` from what the client reported.
    pub fn new_binding(member: MemberId, reported: ClientVersion) -> (b: DeviceBinding)
        ensures
            b == (DeviceBinding { member_id: member, platform: reported.platform, app_version: reported.app_version }),
    {
        DeviceBinding::new(member, reported.platform, reported.app_version)
    }
}

/// The alert dedup is keyed on `(member, kind, day)`: an alert considered for one kind leaves every
/// other kind for the same member and day exactly as free to fire as before, the same kind does
/// not fire again that day, and on a hub that has sent nothing every alert fires.
pub proof fn lemma_dedup_keyed_per_kind(hub: HubView, member: MemberId, k1: AlertKind, k2: AlertKind, now: UnixSeconds, alert: AdminAlert)
    ensures
        k1 != k2 ==> deduped(hub_after_alert(hub, member, k1, now), member, k2, now, alert)
            == deduped(hub, member, k2, now, alert),
        deduped(hub_after_alert(hub, member, k1, now), member, k1, now, alert) is None,
        hub.alerts_sent.is_empty() ==> deduped(hub, member, k2, now, alert) == Some(alert),
        hub_after_alert(hub, member, k1, now).code_attempts == hub.code_attempts,
        hub_after_alert(hub, member, k1, now).refresh_rejections == hub.refresh_rejections,
{
}

} // verus!
