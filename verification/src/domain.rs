//! The plain values the decisions read: opaque identities, roles, server time, client versions,
//! the verdicts of the credential checks, and the secret-bearing strings (which are deliberately
//! neither `Debug` nor serializable).
use vstd::prelude::*;

verus! {

/// An opaque member identity (a UUID, held as its 128-bit value; never displayed).
#[derive(Debug, Clone, Copy, PartialEq, Eq, Structural, Hash)]
pub struct MemberId(pub u128);

impl MemberId {
    /// The member id whose UUID is `n`.
    pub fn from_u128(n: u128) -> (id: MemberId)
        ensures
            id.0 == n,
    {
        MemberId(n)
    }

    /// The UUID value of this id.
    pub fn as_u128(self) -> (n: u128)
        ensures
            n == self.0,
    {
        self.0
    }
}

/// The roles a member may hold (a person may be both Rider and Driver).
#[derive(Debug, Clone, Copy, PartialEq, Eq, Structural, Hash)]
pub enum Role {
    /// Needs transportation to the Gathering.
    Rider,
    /// Drives others to the Gathering.
    Driver,
    /// Manages the group (provisioned only by the Developer).
    Admin,
}

/// A server-time instant in seconds since the Unix epoch.
#[derive(Debug, Clone, Copy, PartialEq, Eq, Structural, Hash)]
pub struct UnixSeconds(pub i64);

/// `t + secs`, clamped to the `i64` range.
pub open spec fn saturating_add_spec(t: i64, secs: i64) -> i64 {
    if t + secs > i64::MAX {
        i64::MAX
    } else if t + secs < i64::MIN {
        i64::MIN
    } else {
        (t + secs) as i64
    }
}

impl UnixSeconds {
    /// The instant `secs` seconds after the epoch.
    pub fn new(secs: i64) -> (t: UnixSeconds)
        ensures
            t.0 == secs,
    {
        UnixSeconds(secs)
    }

    /// Seconds since the epoch.
    pub fn as_secs(self) -> (s: i64)
        ensures
            s == self.0,
    {
        self.0
    }

    /// The instant `secs` seconds later, saturating at the ends of the range.
    pub fn saturating_add_secs(self, secs: i64) -> (t: UnixSeconds)
        ensures
            t.0 == saturating_add_spec(self.0, secs),
    {
        match self.0.checked_add(secs) {
            Some(s) => UnixSeconds(s),
            None => {
                if secs > 0 {
                    UnixSeconds(i64::MAX)
                } else {
                    UnixSeconds(i64::MIN)
                }
            },
        }
    }
}

} // verus!

verus! {

/// A phone number (PII, canonical E.164 once normalized). Read it only through `expose_secret`.
pub struct PhoneNumber(String);

impl View for PhoneNumber {
    type V = Seq<char>;

    closed spec fn view(&self) -> Seq<char> {
        self.0@
    }
}

impl PhoneNumber {
    /// Wrap a secret string.
    pub fn new(s: String) -> (v: PhoneNumber)
        ensures
            v@ == s@,
    {
        PhoneNumber(s)
    }

    /// The plaintext, at an explicit boundary.
    pub fn expose_secret(&self) -> (s: &str)
        ensures
            s@ == self@,
    {
        self.0.as_str()
    }
}

/// A member's name (PII). Read it only through `expose_secret`.
pub struct MemberName(String);

impl View for MemberName {
    type V = Seq<char>;

    closed spec fn view(&self) -> Seq<char> {
        self.0@
    }
}

impl MemberName {
    /// Wrap a secret string.
    pub fn new(s: String) -> (v: MemberName)
        ensures
            v@ == s@,
    {
        MemberName(s)
    }

    /// The plaintext, at an explicit boundary.
    pub fn expose_secret(&self) -> (s: &str)
        ensures
            s@ == self@,
    {
        self.0.as_str()
    }
}

/// A member's home address (PII). Read it only through `expose_secret`.
pub struct Address(String);

impl View for Address {
    type V = Seq<char>;

    closed spec fn view(&self) -> Seq<char> {
        self.0@
    }
}

impl Address {
    /// Wrap a secret string.
    pub fn new(s: String) -> (v: Address)
        ensures
            v@ == s@,
    {
        Address(s)
    }

    /// The plaintext, at an explicit boundary.
    pub fn expose_secret(&self) -> (s: &str)
        ensures
            s@ == self@,
    {
        self.0.as_str()
    }
}

/// A single-use Onboarding Code (a secret). Read it only through `expose_secret`.
pub struct OnboardingCode(String);

impl View for OnboardingCode {
    type V = Seq<char>;

    closed spec fn view(&self) -> Seq<char> {
        self.0@
    }
}

impl OnboardingCode {
    /// Wrap a secret string.
    pub fn new(s: String) -> (v: OnboardingCode)
        ensures
            v@ == s@,
    {
        OnboardingCode(s)
    }

    /// The plaintext, at an explicit boundary.
    pub fn expose_secret(&self) -> (s: &str)
        ensures
            s@ == self@,
    {
        self.0.as_str()
    }
}

/// A Driver's Recovery Code (a secret, rotated on use). Read it only through `expose_secret`.
pub struct RecoveryCode(String);

impl View for RecoveryCode {
    type V = Seq<char>;

    closed spec fn view(&self) -> Seq<char> {
        self.0@
    }
}

impl RecoveryCode {
    /// Wrap a secret string.
    pub fn new(s: String) -> (v: RecoveryCode)
        ensures
            v@ == s@,
    {
        RecoveryCode(s)
    }

    /// The plaintext, at an explicit boundary.
    pub fn expose_secret(&self) -> (s: &str)
        ensures
            s@ == self@,
    {
        self.0.as_str()
    }
}

/// A long-lived, rotating refresh credential (a secret). Read it only through `expose_secret`.
pub struct RefreshToken(String);

impl View for RefreshToken {
    type V = Seq<char>;

    closed spec fn view(&self) -> Seq<char> {
        self.0@
    }
}

impl RefreshToken {
    /// Wrap a secret string.
    pub fn new(s: String) -> (v: RefreshToken)
        ensures
            v@ == s@,
    {
        RefreshToken(s)
    }

    /// The plaintext, at an explicit boundary.
    pub fn expose_secret(&self) -> (s: &str)
        ensures
            s@ == self@,
    {
        self.0.as_str()
    }
}

/// A short-lived bearer access token (a secret). Read it only through `expose_secret`.
pub struct AccessToken(String);

impl View for AccessToken {
    type V = Seq<char>;

    closed spec fn view(&self) -> Seq<char> {
        self.0@
    }
}

impl AccessToken {
    /// Wrap a secret string.
    pub fn new(s: String) -> (v: AccessToken)
        ensures
            v@ == s@,
    {
        AccessToken(s)
    }

    /// The plaintext, at an explicit boundary.
    pub fn expose_secret(&self) -> (s: &str)
        ensures
            s@ == self@,
    {
        self.0.as_str()
    }
}

/// A single-use Admin registration-invitation token (a secret). Read it only through `expose_secret`.
pub struct AdminInvitationToken(String);

impl View for AdminInvitationToken {
    type V = Seq<char>;

    closed spec fn view(&self) -> Seq<char> {
        self.0@
    }
}

impl AdminInvitationToken {
    /// Wrap a secret string.
    pub fn new(s: String) -> (v: AdminInvitationToken)
        ensures
            v@ == s@,
    {
        AdminInvitationToken(s)
    }

    /// The plaintext, at an explicit boundary.
    pub fn expose_secret(&self) -> (s: &str)
        ensures
            s@ == self@,
    {
        self.0.as_str()
    }
}

/// A push device token (APNs/FCM) bound to a member's device (a secret). Read it only through `expose_secret`.
pub struct DeviceToken(String);

impl View for DeviceToken {
    type V = Seq<char>;

    closed spec fn view(&self) -> Seq<char> {
        self.0@
    }
}

impl DeviceToken {
    /// Wrap a secret string.
    pub fn new(s: String) -> (v: DeviceToken)
        ensures
            v@ == s@,
    {
        DeviceToken(s)
    }

    /// The plaintext, at an explicit boundary.
    pub fn expose_secret(&self) -> (s: &str)
        ensures
            s@ == self@,
    {
        self.0.as_str()
    }
}

/// The keyed at-rest hash of an Onboarding or Recovery Code. Opaque bytes computed by the caller's keyed hash.
#[derive(Clone, PartialEq, Eq)]
pub struct CodeHash(pub Vec<u8>);

/// The keyed phone-lookup hash a member is found by. Opaque bytes computed by the caller's keyed hash.
#[derive(Clone, PartialEq, Eq)]
pub struct PhoneLookupHash(pub Vec<u8>);

/// The keyed at-rest hash of a refresh credential. Opaque bytes computed by the caller's keyed hash.
#[derive(Clone, PartialEq, Eq)]
pub struct RefreshTokenHash(pub Vec<u8>);

/// The keyed at-rest hash of an Admin invitation token. Opaque bytes computed by the caller's keyed hash.
#[derive(Clone, PartialEq, Eq)]
pub struct AdminInvitationTokenHash(pub Vec<u8>);

} // verus!

verus! {

/// A semantic application version `major.minor.patch`.
#[derive(Debug, Clone, Copy, PartialEq, Eq, Structural, Hash)]
pub struct AppVersion {
    pub major: u32,
    pub minor: u32,
    pub patch: u32,
}

/// `a` is strictly older than `b` (lexicographic on major, minor, patch).
pub open spec fn version_lt(a: AppVersion, b: AppVersion) -> bool {
    a.major < b.major || (a.major == b.major && (a.minor < b.minor || (a.minor == b.minor
        && a.patch < b.patch)))
}

impl AppVersion {
    /// The version `major.minor.patch`.
    pub fn new(major: u32, minor: u32, patch: u32) -> (v: AppVersion)
        ensures
            v.major == major && v.minor == minor && v.patch == patch,
    {
        AppVersion { major, minor, patch }
    }

    /// Whether `self` is strictly older than `other`.
    pub fn older_than(&self, other: &AppVersion) -> (b: bool)
        ensures
            b == version_lt(*self, *other),
    {
        self.major < other.major || (self.major == other.major && (self.minor < other.minor || (
        self.minor == other.minor && self.patch < other.patch)))
    }
}

/// The client platform a device reports.
#[derive(Debug, Clone, Copy, PartialEq, Eq, Structural, Hash)]
pub enum Platform {
    Ios,
    IpadOs,
    Android,
}

/// What a client reports about itself: its platform and application version.
#[derive(Debug, Clone, Copy, PartialEq, Eq, Structural, Hash)]
pub struct ClientVersion {
    pub platform: Platform,
    pub app_version: AppVersion,
}

/// The version handshake every auth response carries: `client_min_version` and
/// `client_recommended_version`.
#[derive(Debug, Clone, Copy, PartialEq, Eq, Structural, Hash)]
pub struct VersionRequirement {
    pub min: AppVersion,
    pub recommended: AppVersion,
}

impl VersionRequirement {
    /// The requirement with floor `min` and recommendation `recommended`.
    pub fn new(min: AppVersion, recommended: AppVersion) -> (r: VersionRequirement)
        ensures
            r.min == min && r.recommended == recommended,
    {
        VersionRequirement { min, recommended }
    }

    /// Whether a client reporting `reported` is below `client_min_version` (it then degrades
    /// calmly and the endpoint acts on nothing).
    pub fn is_below_minimum(&self, reported: &AppVersion) -> (b: bool)
        ensures
            b == version_lt(*reported, self.min),
    {
        reported.older_than(&self.min)
    }
}

/// An opaque session-family identity (a UUID as its 128-bit value).
#[derive(Debug, Clone, Copy, PartialEq, Eq, Structural, Hash)]
pub struct SessionFamilyId(pub u128);

/// The lifecycle status of a session family.
#[derive(Debug, Clone, Copy, PartialEq, Eq, Structural, Hash)]
pub enum SessionFamilyStatus {
    Active,
    Revoked,
}

/// How a presented refresh credential relates to its family.
#[derive(Debug, Clone, Copy, PartialEq, Eq, Structural, Hash)]
pub enum RefreshPresentation {
    /// The family's current credential.
    Current,
    /// A credential already rotated away (a replay).
    Superseded,
    /// No family knows this credential.
    Unknown,
}

/// The PII-free descriptor of an issued session.
#[derive(Debug, Clone, Copy, PartialEq, Eq, Structural)]
pub struct Session {
    pub member_id: MemberId,
    pub family_id: SessionFamilyId,
    pub access_token_expires_at: UnixSeconds,
    pub family_status: SessionFamilyStatus,
}

/// A device binding: the `(member, platform, app_version)` tuple a push token is registered under.
#[derive(Debug, Clone, Copy, PartialEq, Eq, Structural, Hash)]
pub struct DeviceBinding {
    pub member_id: MemberId,
    pub platform: Platform,
    pub app_version: AppVersion,
}

impl DeviceBinding {
    /// The binding of `member`'s device on `platform` at `app_version`.
    pub fn new(member_id: MemberId, platform: Platform, app_version: AppVersion) -> (b: DeviceBinding)
        ensures
            b.member_id == member_id && b.platform == platform && b.app_version == app_version,
    {
        DeviceBinding { member_id, platform, app_version }
    }
}

/// The interpreted sign-in outcome the client routes on.
#[derive(Debug, Clone, Copy, PartialEq, Eq, Structural, Hash)]
pub enum SignInResult {
    /// The phone matched a member.
    MemberMatched,
    /// No member has this phone.
    PhoneNotOnFile,
    /// The client is below `client_min_version`; nothing about the phone is revealed.
    BelowMinVersion,
}

/// The sign-in outcome for a lookup that did (`matched`) or did not match. A client below the
/// minimum version gets `BelowMinVersion` in either case.
pub open spec fn sign_in_result_spec(matched: bool, below_min: bool) -> SignInResult {
    if below_min {
        SignInResult::BelowMinVersion
    } else if matched {
        SignInResult::MemberMatched
    } else {
        SignInResult::PhoneNotOnFile
    }
}

impl SignInResult {
    /// The outcome of a lookup under the version verdict.
    pub fn from_lookup(matched: bool, below_min: bool) -> (r: SignInResult)
        ensures
            r == sign_in_result_spec(matched, below_min),
    {
        if below_min {
            SignInResult::BelowMinVersion
        } else if matched {
            SignInResult::MemberMatched
        } else {
            SignInResult::PhoneNotOnFile
        }
    }
}

/// The verdict on a presented Onboarding Code.
#[derive(Debug, Clone, Copy, PartialEq, Eq, Structural, Hash)]
pub enum OnboardingCodeVerdict {
    Accepted,
    Invalid,
    Expired,
    Consumed,
    RateLimited,
}

/// The stable error code of each rejecting Onboarding-Code verdict (`Accepted` has none).
pub open spec fn onboarding_verdict_code(v: OnboardingCodeVerdict) -> Seq<char> {
    match v {
        OnboardingCodeVerdict::Accepted => Seq::empty(),
        OnboardingCodeVerdict::Invalid => "AUTH_ONBOARDING_CODE_INVALID"@,
        OnboardingCodeVerdict::Expired => "AUTH_ONBOARDING_CODE_EXPIRED"@,
        OnboardingCodeVerdict::Consumed => "AUTH_ONBOARDING_CODE_CONSUMED"@,
        OnboardingCodeVerdict::RateLimited => "AUTH_ONBOARDING_CODE_RATE_LIMITED"@,
    }
}

impl OnboardingCodeVerdict {
    /// The stable error code of a rejection, or `None` for `Accepted`.
    pub fn error_code(&self) -> (code: Option<&'static str>)
        ensures
            code is None <==> *self == OnboardingCodeVerdict::Accepted,
            code matches Some(c) ==> c@ == onboarding_verdict_code(*self),
    {
        match self {
            OnboardingCodeVerdict::Accepted => None,
            OnboardingCodeVerdict::Invalid => Some("AUTH_ONBOARDING_CODE_INVALID"),
            OnboardingCodeVerdict::Expired => Some("AUTH_ONBOARDING_CODE_EXPIRED"),
            OnboardingCodeVerdict::Consumed => Some("AUTH_ONBOARDING_CODE_CONSUMED"),
            OnboardingCodeVerdict::RateLimited => Some("AUTH_ONBOARDING_CODE_RATE_LIMITED"),
        }
    }
}

/// The verdict on a presented Recovery Code.
#[derive(Debug, Clone, Copy, PartialEq, Eq, Structural, Hash)]
pub enum RecoveryCodeVerdict {
    Accepted,
    Invalid,
    NotAvailable,
}

/// The stable error code of each rejecting Recovery-Code verdict (`Accepted` has none).
pub open spec fn recovery_verdict_code(v: RecoveryCodeVerdict) -> Seq<char> {
    match v {
        RecoveryCodeVerdict::Accepted => Seq::empty(),
        RecoveryCodeVerdict::Invalid => "AUTH_RECOVERY_CODE_INVALID"@,
        RecoveryCodeVerdict::NotAvailable => "AUTH_RECOVERY_NOT_AVAILABLE"@,
    }
}

impl RecoveryCodeVerdict {
    /// The stable error code of a rejection, or `None` for `Accepted`.
    pub fn error_code(&self) -> (code: Option<&'static str>)
        ensures
            code is None <==> *self == RecoveryCodeVerdict::Accepted,
            code matches Some(c) ==> c@ == recovery_verdict_code(*self),
    {
        match self {
            RecoveryCodeVerdict::Accepted => None,
            RecoveryCodeVerdict::Invalid => Some("AUTH_RECOVERY_CODE_INVALID"),
            RecoveryCodeVerdict::NotAvailable => Some("AUTH_RECOVERY_NOT_AVAILABLE"),
        }
    }
}

/// The rotation policy's verdict on a classified refresh credential.
#[derive(Debug, Clone, Copy, PartialEq, Eq, Structural, Hash)]
pub enum RefreshVerdict {
    /// Rotate to a fresh credential.
    Rotate,
    /// A rotated-away credential was replayed: kill the whole family.
    ReplayDetectedKillFamily,
    /// Not accepted.
    Rejected,
}

/// Self-serve recovery is available to Drivers only.
pub fn recovery_available_for(role: Role) -> (b: bool)
    ensures
        b == (role == Role::Driver),
{
    match role {
        Role::Driver => true,
        _ => false,
    }
}

/// A declined notification permission is flagged to the admin; a grant is not.
pub fn should_flag_notifications_off(granted: bool) -> (flag: bool)
    ensures
        flag == !granted,
{
    !granted
}

/// Version ordering is lexicographic on `(major, minor, patch)` and strict: a smaller major is
/// older whatever follows; with equal majors a smaller minor is older whatever the patch; with
/// equal major and minor a smaller patch is older; a larger component at the first difference is
/// never older; and nothing is older than itself. So a floor set at minor granularity (1.2.0)
/// puts 1.1.x below it.
pub proof fn lemma_version_order(a: AppVersion, b: AppVersion)
    ensures
        a.major < b.major ==> version_lt(a, b),
        a.major == b.major && a.minor < b.minor ==> version_lt(a, b),
        a.major == b.major && a.minor == b.minor && a.patch < b.patch ==> version_lt(a, b),
        a.major > b.major ==> !version_lt(a, b),
        a.major == b.major && a.minor > b.minor ==> !version_lt(a, b),
        a.major == b.major && a.minor == b.minor && a.patch >= b.patch ==> !version_lt(a, b),
        !version_lt(a, a),
        version_lt(a, b) ==> !version_lt(b, a),
{
}

/// Sign-in reports a match exactly when the lookup matched and the client is not below the
/// minimum, `PhoneNotOnFile` exactly when it did not match and the client is not below it, and
/// `BelowMinVersion` exactly when the client is below it.
pub proof fn lemma_sign_in_result_meaning(matched: bool, below_min: bool)
    ensures
        (sign_in_result_spec(matched, below_min) == SignInResult::MemberMatched) == (matched && !below_min),
        (sign_in_result_spec(matched, below_min) == SignInResult::PhoneNotOnFile) == (!matched && !below_min),
        (sign_in_result_spec(matched, below_min) == SignInResult::BelowMinVersion) == below_min,
{
}

} // verus!
