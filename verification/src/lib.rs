//! The member-authentication decision core of a closed-group carpooling service: the pure,
//! deterministic logic behind the `/api/auth/*`, `/api/dev/*` and `/api/admin/*` endpoints, the
//! group hub's rate-limit windows and alert dedup, phone canonicalization and admin member
//! management. Every I/O effect (stores, alert delivery, randomness, cryptography) is performed by
//! the caller; the functions here take what those effects returned and decide what happens next.

pub mod admin;
pub mod admin_webauthn;
pub mod alerts;
pub mod audited;
pub mod bind;
pub mod bootstrap;
pub mod domain;
pub mod hub;
pub mod member;
pub mod phone;
pub mod ports;
pub mod recovery;
pub mod refresh;
pub mod secrets;
pub mod service;
pub mod signin;
mod text;

pub use admin::{
    authorize_developer, create_admin, reissue_admin_invite, AdminInvitation,
    DevAdminCreateForbidden, DevCaller, DeveloperAuthority, INVITE_TTL_SECS,
};
pub use admin_webauthn::{
    b64, b64_opt, AdminCredential, AdminInviteRecord, AdminRegisterCompleteResult,
    NewAdminCredential, RegisterCompleteOutcome,
};
pub use alerts::{AdminAlert, AlertKind};
pub use audited::{AuditedResponse, PiiDisclosure};
pub use bind::{BindOutcome, BindRequest, BindResponse};
pub use bootstrap::{load_group_key, GroupKeyMissing, INITIAL_KEK_VERSION};
pub use domain::{
    AccessToken, Address, AdminInvitationToken, AdminInvitationTokenHash, AppVersion,
    ClientVersion, CodeHash, DeviceBinding, DeviceToken, MemberId, MemberName, OnboardingCode,
    OnboardingCodeVerdict, PhoneLookupHash, PhoneNumber, Platform, RecoveryCode,
    RecoveryCodeVerdict, RefreshPresentation, RefreshToken, RefreshTokenHash, RefreshVerdict, Role,
    Session, SessionFamilyId, SessionFamilyStatus, SignInResult, UnixSeconds, VersionRequirement,
};
pub use hub::{GroupHubState, SourceKey, CODE_ATTEMPT_WINDOW_SECS};
pub use member::{
    decode_field, issuable_roles, AdminRoleForbidden, AuditEntry, AuditField, AuditLogView,
    DetailRead, DuplicateDisclosureAudit, DuplicatePhoneLinkView, EditApplied, EditMemberInput,
    EditMemberOutcome, InsertMemberOutcome, IssuableRole, IssueMemberInput, IssueMemberOutcome,
    MemberDetail, MemberDetailView, MemberEditWrite, MemberError, MemberIssuedView,
    MemberListView, MemberSummary, NewMemberWrite, OnboardingStatus, RegenerateCodeView,
    RegenerateOutcome, StoredMemberPii, StoredMemberSummary, ONBOARDING_CODE_TTL_SECS,
};
pub use phone::{normalize_phone, PhoneNormalizeError};
pub use ports::{
    FamilyInfo, MemberRecord, OnboardingCodeRow, RecoveryCodeRow, RefreshClassification,
    SessionMaterial, StoreBackend,
};
pub use recovery::{RecoveryOutcome, RecoveryRequest, RecoveryResponse};
pub use refresh::{RefreshOutcome, RefreshRequest, RefreshResponse};
pub use secrets::{to_hex, RngSecretSource};
pub use service::{AuthConfig, AuthService, ManifestPointer, ACCESS_TTL_SECS};
pub use signin::{SignInRequest, SignInResponse};
