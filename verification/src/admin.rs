//! `POST /api/dev/admins` — developer-only Admin provisioning. Admins are issued only by the
//! Developer; there is no signup surface. Authorization is a capability: [`DeveloperAuthority`]
//! has a private field and its only constructor is [`authorize_developer`], so minting an
//! invitation without developer authorization does not type-check.
use vstd::prelude::*;

use crate::domain::{AdminInvitationToken, MemberId, UnixSeconds, saturating_add_spec};

verus! {

/// The Admin registration-invitation TTL: 72 hours, validated against server time.
pub const INVITE_TTL_SECS: i64 = 259200;

/// Who is calling a `/api/dev/*` endpoint.
#[derive(Debug, Clone, Copy, PartialEq, Eq, Structural)]
pub enum DevCaller {
    /// No credential presented.
    Unauthenticated,
    /// An authenticated member (Rider/Driver) — not the Developer.
    Member,
    /// An authenticated Admin — explicitly cannot create other Admins.
    Admin,
    /// The Developer, hardware-key verified.
    Developer,
}

/// The stable rejection of a non-Developer caller at the Admin-creation endpoint.
#[derive(Debug, Clone, Copy, PartialEq, Eq, Structural)]
pub struct DevAdminCreateForbidden;

impl DevAdminCreateForbidden {
    /// The stable error code.
    pub fn error_code(self) -> (code: &'static str)
        ensures
            code@ == "DEV_ADMIN_CREATE_FORBIDDEN"@,
    {
        "DEV_ADMIN_CREATE_FORBIDDEN"
    }
}

/// Proof that the caller is the Developer — the capability that gates Admin provisioning. The
/// private field makes it unforgeable outside this module.
#[derive(Debug, Clone, Copy)]
pub struct DeveloperAuthority(());

/// Authorize a `/api/dev/*` caller: the Developer gets the capability; everyone else —
/// unauthenticated, member, or Admin — is refused.
pub fn authorize_developer(caller: DevCaller) -> (r: Result<DeveloperAuthority, DevAdminCreateForbidden>)
    ensures
        r is Ok <==> caller == DevCaller::Developer,
{
    match caller {
        DevCaller::Developer => Ok(DeveloperAuthority(())),
        _ => Err(DevAdminCreateForbidden),
    }
}

/// A freshly-minted Admin registration invitation, delivered out of band. PII-free: an opaque
/// admin id, an opaque single-use token, an expiry. Holds the token, so it is neither `Debug` nor
/// serializable.
pub struct AdminInvitation {
    /// The pending Admin this invitation registers.
    pub admin_id: MemberId,
    /// The single-use registration token.
    pub token: AdminInvitationToken,
    /// Server-side expiry instant.
    pub expires_at: UnixSeconds,
}

/// The expiry of an invitation minted at `now`: `now + INVITE_TTL_SECS`, saturating.
pub fn invite_expires_at(_developer: &DeveloperAuthority, now: UnixSeconds) -> (t: UnixSeconds)
    ensures
        t.0 == saturating_add_spec(now.0, INVITE_TTL_SECS),
{
    now.saturating_add_secs(INVITE_TTL_SECS)
}

/// The invitation for a freshly provisioned pending Admin `admin_id` whose invitation (the hash of
/// `token`, expiring at `expires_at`) the store just recorded.
pub fn create_admin(_developer: &DeveloperAuthority, admin_id: MemberId, token: AdminInvitationToken, expires_at: UnixSeconds) -> (inv: AdminInvitation)
    ensures
        inv == (AdminInvitation { admin_id, token, expires_at }),
{
    AdminInvitation { admin_id, token, expires_at }
}

/// The result of re-inviting `admin_id` (lost-key recovery): the fresh invitation iff the store
/// found the admin (and superseded its prior live invitation); an unknown id is a no-op.
pub fn reissue_admin_invite(_developer: &DeveloperAuthority, admin_id: MemberId, token: AdminInvitationToken, expires_at: UnixSeconds, existed: bool) -> (inv: Option<AdminInvitation>)
    ensures
        existed ==> inv == Some(AdminInvitation { admin_id, token, expires_at }),
        !existed ==> inv is None,
{
    if existed {
        Some(AdminInvitation { admin_id, token, expires_at })
    } else {
        None
    }
}

} // verus!
