//! The records the decisions exchange with the persistence boundary. The stores themselves (and
//! the atomicity of their mutating calls) are the caller's; these are the plain values they return.
use vstd::prelude::*;

use crate::domain::{
    AccessToken, CodeHash, MemberId, RefreshPresentation, RefreshToken, Role, Session,
    SessionFamilyId, SessionFamilyStatus, UnixSeconds,
};

verus! {

/// A member as the auth paths need it — PII-free: the phone exists only as a lookup hash in the
/// store, never here.
#[derive(Debug, Clone, PartialEq, Eq)]
pub struct MemberRecord {
    /// The opaque member identity.
    pub member_id: MemberId,
    /// The roles the member holds.
    pub roles: Vec<Role>,
}

impl MemberRecord {
    /// Whether the member holds the Driver role (gates self-serve recovery).
    pub fn is_driver(&self) -> (b: bool)
        ensures
            b == self.roles@.contains(Role::Driver),
    {
        let mut i: usize = 0;
        while i < self.roles.len()
            invariant
                i <= self.roles@.len(),
                forall|j: int| 0 <= j < i ==> self.roles@[j] != Role::Driver,
            decreases self.roles@.len() - i,
        {
            if self.roles[i] == Role::Driver {
                assert(self.roles@[i as int] == Role::Driver);
                return true;
            }
            i = i + 1;
        }
        false
    }

    /// The role that gates self-serve recovery: `Driver` iff the member drives, else `Rider`.
    pub fn recovery_role(&self) -> (r: Role)
        ensures
            r == (if self.roles@.contains(Role::Driver) { Role::Driver } else { Role::Rider }),
    {
        if self.is_driver() {
            Role::Driver
        } else {
            Role::Rider
        }
    }
}

/// The persisted bits of a member's live Onboarding Code (only the live row is ever returned; a
/// live row may still be expired, so the TTL is carried).
#[derive(Clone)]
pub struct OnboardingCodeRow {
    /// The keyed hash of the issued code.
    pub code_hash: CodeHash,
    /// Server-side TTL boundary.
    pub expires_at: UnixSeconds,
    /// The per-window attempt ceiling.
    pub max_attempts: u32,
}

/// The persisted bits of a Driver's live Recovery Code (no TTL — rotated on use).
#[derive(Clone)]
pub struct RecoveryCodeRow {
    /// The keyed hash of the issued code.
    pub code_hash: CodeHash,
}

/// What the session store learned about a family while classifying a presented credential.
#[derive(Debug, Clone, Copy, PartialEq, Eq, Structural)]
pub struct FamilyInfo {
    /// The family the presented credential belongs to.
    pub id: SessionFamilyId,
    /// The family's lifecycle status.
    pub status: SessionFamilyStatus,
    /// The member who owns the family.
    pub member: MemberId,
}

/// The result of classifying a presented refresh credential.
#[derive(Debug, Clone, Copy, PartialEq, Eq, Structural)]
pub struct RefreshClassification {
    /// How the credential relates to its family.
    pub presentation: RefreshPresentation,
    /// The family, when one was found (absent only for `Unknown`).
    pub family: Option<FamilyInfo>,
}

/// Freshly-minted session material returned to the client. Holds secrets, so it is neither
/// `Debug` nor serializable.
pub struct SessionMaterial {
    /// The PII-free session descriptor.
    pub session: Session,
    /// The short-lived bearer access token.
    pub access: AccessToken,
    /// The long-lived, rotating refresh credential.
    pub refresh: RefreshToken,
}

/// The shared error of a store backend: an infrastructure failure, never a business outcome.
pub trait StoreBackend {
    /// The error a store call can fail with.
    type Error;
}

} // verus!
