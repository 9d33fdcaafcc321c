//! Admin alerts / flags emitted by the auth layer — PII-free by construction: every field is an
//! opaque member id or a version number.
use vstd::prelude::*;

use crate::domain::{AppVersion, MemberId};

verus! {

/// A non-PII admin alert/flag the auth layer emits to the group's admin.
#[derive(Debug, Clone, Copy, PartialEq, Eq, Structural)]
pub enum AdminAlert {
    /// A device reported a version below `client_min_version`.
    BelowMinVersion {
        /// The member whose device is too old.
        member: MemberId,
        /// The version the client reported.
        reported_version: AppVersion,
    },
    /// A previously valid session was invalidated and the member needs help re-establishing it.
    SessionInvalidated {
        member: MemberId,
    },
    /// Onboarding-Code bind attempts hit the rate limit and the code is locked.
    OnboardingCodeLocked {
        member: MemberId,
    },
    /// Notification permission was declined at onboarding.
    NotificationsNotEnabled {
        member: MemberId,
    },
}

/// The member an alert concerns.
pub open spec fn alert_member(a: AdminAlert) -> MemberId {
    match a {
        AdminAlert::BelowMinVersion { member, .. } => member,
        AdminAlert::SessionInvalidated { member } => member,
        AdminAlert::OnboardingCodeLocked { member } => member,
        AdminAlert::NotificationsNotEnabled { member } => member,
    }
}

/// The kind of an alert.
pub open spec fn alert_kind(a: AdminAlert) -> AlertKind {
    match a {
        AdminAlert::BelowMinVersion { .. } => AlertKind::BelowMinVersion,
        AdminAlert::SessionInvalidated { .. } => AlertKind::SessionInvalidated,
        AdminAlert::OnboardingCodeLocked { .. } => AlertKind::OnboardingCodeLocked,
        AdminAlert::NotificationsNotEnabled { .. } => AlertKind::NotificationsNotEnabled,
    }
}

impl AdminAlert {
    /// The member this alert concerns (the dedup subject).
    pub fn member(&self) -> (m: MemberId)
        ensures
            m == alert_member(*self),
    {
        match self {
            AdminAlert::BelowMinVersion { member, .. } => *member,
            AdminAlert::SessionInvalidated { member } => *member,
            AdminAlert::OnboardingCodeLocked { member } => *member,
            AdminAlert::NotificationsNotEnabled { member } => *member,
        }
    }

    /// The kind of this alert (the second half of the dedup key).
    pub fn kind(&self) -> (k: AlertKind)
        ensures
            k == alert_kind(*self),
    {
        match self {
            AdminAlert::BelowMinVersion { .. } => AlertKind::BelowMinVersion,
            AdminAlert::SessionInvalidated { .. } => AlertKind::SessionInvalidated,
            AdminAlert::OnboardingCodeLocked { .. } => AlertKind::OnboardingCodeLocked,
            AdminAlert::NotificationsNotEnabled { .. } => AlertKind::NotificationsNotEnabled,
        }
    }

    /// The stable operational code of this alert.
    pub fn error_code(&self) -> (code: &'static str)
        ensures
            code@ == alert_code_spec(alert_kind(*self))@,
    {
        match self {
            AdminAlert::BelowMinVersion { .. } => "AUTH_BELOW_MIN_VERSION",
            AdminAlert::SessionInvalidated { .. } => "AUTH_SESSION_INVALIDATED",
            AdminAlert::OnboardingCodeLocked { .. } => "AUTH_ONBOARDING_CODE_RATE_LIMITED",
            AdminAlert::NotificationsNotEnabled { .. } => "AUTH_NOTIFICATIONS_NOT_ENABLED",
        }
    }
}

/// The operational code of each alert kind.
pub open spec fn alert_code_spec(k: AlertKind) -> &'static str {
    match k {
        AlertKind::BelowMinVersion => "AUTH_BELOW_MIN_VERSION",
        AlertKind::SessionInvalidated => "AUTH_SESSION_INVALIDATED",
        AlertKind::OnboardingCodeLocked => "AUTH_ONBOARDING_CODE_RATE_LIMITED",
        AlertKind::NotificationsNotEnabled => "AUTH_NOTIFICATIONS_NOT_ENABLED",
    }
}

/// The kind of an [`AdminAlert`], without its data — the discriminant the group hub keys "one
/// alert per member per day" on.
#[derive(Debug, Clone, Copy, PartialEq, Eq, Structural, Hash)]
pub enum AlertKind {
    /// A device reported a version below the minimum.
    BelowMinVersion,
    /// A session was invalidated and the member needs help re-establishing it.
    SessionInvalidated,
    /// Onboarding-Code bind attempts hit the rate limit.
    OnboardingCodeLocked,
    /// Notification permission was declined at onboarding.
    NotificationsNotEnabled,
}

} // verus!
