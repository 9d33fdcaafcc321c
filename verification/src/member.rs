//! Admin member management — the issuance / edit / regenerate / detail-read / audit decision
//! layer. Names and addresses are encrypted at rest and phones stored two-fold (a keyed lookup
//! hash and a ciphertext); the hashing and encryption are the caller's, and each operation here
//! decides validity, what is written, and what is returned.
use vstd::prelude::*;

use crate::audited::PiiDisclosure;
use crate::domain::{
    Address, CodeHash, MemberId, MemberName, OnboardingCode, PhoneLookupHash, PhoneNumber, Role,
    UnixSeconds, saturating_add_spec,
};
use crate::phone::{normalize_phone, normalize_phone_spec};
use crate::text::{chars_of, trim, trim_bounds};

verus! {

/// The Onboarding-Code TTL minted at issuance: 72 hours, against server time.
pub const ONBOARDING_CODE_TTL_SECS: i64 = 259200;

/// What `String::from_utf8_lossy` gives for `bytes`: the decoded text, with every invalid
/// sequence replaced by U+FFFD.
pub uninterp spec fn lossy_utf8(bytes: Seq<u8>) -> Seq<char>;

/// `text` is what `bytes` decode to: the lossy decoding, which for valid UTF-8 is exactly the
/// text the bytes encode.
pub open spec fn decodes_to(bytes: Seq<u8>, text: Seq<char>) -> bool {
    &&& text == lossy_utf8(bytes)
    &&& vstd::utf8::valid_utf8(bytes) ==> text == vstd::utf8::decode_utf8(bytes)
}

/// Decode a just-decrypted PII field into display text. Calls `String::from_utf8_lossy` (then
/// `into_owned`); std documents that valid UTF-8 decodes to exactly its text and that invalid
/// sequences become U+FFFD. The contract names the result and states the valid-UTF-8 case.
#[verifier::external_body]
pub fn decode_field(bytes: &[u8]) -> (s: String)
    ensures
        s@ == lossy_utf8(bytes@),
        vstd::utf8::valid_utf8(bytes@) ==> s@ == vstd::utf8::decode_utf8(bytes@),
{
    String::from_utf8_lossy(bytes).into_owned()
}

// ===== Roles =====

/// A role a member may be issued with — `Rider` or `Driver` only; issuing an Admin is
/// unrepresentable.
#[derive(Debug, Clone, Copy, PartialEq, Eq, Structural)]
pub enum IssuableRole {
    Rider,
    Driver,
}

/// The role an issuable role stands for.
pub open spec fn role_of(r: IssuableRole) -> Role {
    match r {
        IssuableRole::Rider => Role::Rider,
        IssuableRole::Driver => Role::Driver,
    }
}

impl IssuableRole {
    /// The role this issuable role stands for.
    pub fn role(self) -> (r: Role)
        ensures
            r == role_of(self),
    {
        match self {
            IssuableRole::Rider => Role::Rider,
            IssuableRole::Driver => Role::Driver,
        }
    }
}

/// The roles a set of issuable roles stands for, in order.
pub open spec fn roles_of(rs: Seq<IssuableRole>) -> Seq<Role> {
    rs.map_values(|r: IssuableRole| role_of(r))
}

/// The roles of `rs`, in order.
pub fn to_roles(rs: &Vec<IssuableRole>) -> (out: Vec<Role>)
    ensures
        out@ == roles_of(rs@),
{
    let mut out: Vec<Role> = Vec::new();
    let mut i: usize = 0;
    while i < rs.len()
        invariant
            i <= rs@.len(),
            out@ == roles_of(rs@.subrange(0, i as int)),
        decreases rs@.len() - i,
    {
        out.push(rs[i].role());
        assert(roles_of(rs@.subrange(0, i as int + 1)) =~= roles_of(rs@.subrange(0, i as int)).push(role_of(rs@[i as int])));
        i = i + 1;
    }
    assert(rs@.subrange(0, rs@.len() as int) =~= rs@);
    out
}

/// An issuance request named a role that cannot be issued here — an Admin.
#[derive(Debug, Clone, Copy, PartialEq, Eq, Structural)]
pub struct AdminRoleForbidden;

impl AdminRoleForbidden {
    /// The stable error code.
    pub fn error_code(self) -> (code: &'static str)
        ensures
            code@ == "ADMIN_MEMBER_ROLE_FORBIDDEN"@,
    {
        "ADMIN_MEMBER_ROLE_FORBIDDEN"
    }
}

/// Convert wire roles into the issuable subset, refusing any `Admin` (the one seam where an
/// Admin is rejected at issuance). An empty set is not rejected here.
pub fn issuable_roles(roles: &[Role]) -> (r: Result<Vec<IssuableRole>, AdminRoleForbidden>)
    ensures
        r is Err <==> roles@.contains(Role::Admin),
        r matches Ok(v) ==> roles_of(v@) == roles@,
{
    let mut out: Vec<IssuableRole> = Vec::new();
    let mut i: usize = 0;
    while i < roles.len()
        invariant
            i <= roles@.len(),
            roles_of(out@) == roles@.subrange(0, i as int),
            forall|j: int| 0 <= j < i ==> roles@[j] != Role::Admin,
        decreases roles@.len() - i,
    {
        let r = roles[i];
        let ir = match r {
            Role::Rider => IssuableRole::Rider,
            Role::Driver => IssuableRole::Driver,
            Role::Admin => {
                assert(roles@[i as int] == Role::Admin);
                return Err(AdminRoleForbidden);
            },
        };
        let ghost before = out@;
        out.push(ir);
        assert(role_of(ir) == roles@[i as int]);
        assert(out@ =~= before.push(ir));
        assert(roles_of(out@) =~= roles_of(before).push(role_of(ir)));
        assert(roles@.subrange(0, i as int + 1) =~= roles@.subrange(0, i as int).push(roles@[i as int]));
        i = i + 1;
    }
    assert(roles@.subrange(0, roles@.len() as int) =~= roles@);
    Ok(out)
}

fn copy_roles(roles: &Vec<Role>) -> (out: Vec<Role>)
    ensures
        out@ == roles@,
{
    let mut out: Vec<Role> = Vec::new();
    let mut i: usize = 0;
    while i < roles.len()
        invariant
            i <= roles@.len(),
            out@ == roles@.subrange(0, i as int),
        decreases roles@.len() - i,
    {
        out.push(roles[i]);
        assert(out@ =~= roles@.subrange(0, i as int + 1));
        i = i + 1;
    }
    assert(roles@.subrange(0, roles@.len() as int) =~= roles@);
    out
}

// ===== Projections + status =====

/// Where a member is in the issue → onboard lifecycle.
#[derive(Debug, Clone, Copy, PartialEq, Eq, Structural)]
pub enum OnboardingStatus {
    /// A live Onboarding Code is outstanding, no device bound.
    IssuedNotOnboarded,
    /// A device is bound; the code is consumed.
    Onboarded,
    /// No live code (consumed or past TTL); the admin must regenerate.
    CodeExpiredOrLost,
    /// Device replaced or revoked.
    NeedsReonboarding,
}

/// The member-list projection — no secret-bearing type: a plain display name, roles, status.
/// (Not `Debug`: the name is still PII for logging.)
#[derive(Clone, PartialEq, Eq)]
pub struct MemberSummary {
    pub member_id: MemberId,
    /// The decrypted display name.
    pub name: String,
    pub roles: Vec<Role>,
    pub onboarding_status: OnboardingStatus,
}

/// The core member-detail projection — holds PII, so it is neither `Debug` nor serializable.
pub struct MemberDetail {
    pub member_id: MemberId,
    pub name: MemberName,
    pub phone: PhoneNumber,
    pub address: Address,
    pub roles: Vec<Role>,
    pub onboarding_status: OnboardingStatus,
    /// The optimistic-concurrency token (the row's server-time `updated_at`).
    pub updated_at: UnixSeconds,
}

/// The wire member-detail DTO (plain text — must never be logged). Its fields are private and its
/// only constructor is crate-private, so the detail reaches a client only inside a
/// [`PiiDisclosure`] that [`detail_read`] mints from an [`AuditTicket`].
pub struct MemberDetailView {
    member_id: MemberId,
    name: String,
    phone: String,
    address: String,
    roles: Vec<Role>,
    onboarding_status: OnboardingStatus,
    updated_at: UnixSeconds,
}

/// The wire view of a detail: every field as is, the secrets revealed as text.
pub open spec fn detail_view_matches(v: MemberDetailView, d: MemberDetail) -> bool {
    &&& v.member_id() == d.member_id
    &&& v.name_text() == d.name@
    &&& v.phone_text() == d.phone@
    &&& v.address_text() == d.address@
    &&& v.roles_seq() == d.roles@
    &&& v.status() == d.onboarding_status
    &&& v.updated() == d.updated_at
}

impl MemberDetailView {
    pub closed spec fn member_id(&self) -> MemberId { self.member_id }
    pub closed spec fn name_text(&self) -> Seq<char> { self.name@ }
    pub closed spec fn phone_text(&self) -> Seq<char> { self.phone@ }
    pub closed spec fn address_text(&self) -> Seq<char> { self.address@ }
    pub closed spec fn roles_seq(&self) -> Seq<Role> { self.roles@ }
    pub closed spec fn status(&self) -> OnboardingStatus { self.onboarding_status }
    pub closed spec fn updated(&self) -> UnixSeconds { self.updated_at }

    /// The member id.
    pub fn get_member_id(&self) -> (m: MemberId)
        ensures m == self.member_id(),
    {
        self.member_id
    }

    /// The name (plaintext — never log).
    pub fn get_name(&self) -> (s: &str)
        ensures s@ == self.name_text(),
    {
        self.name.as_str()
    }

    /// The phone, E.164 (plaintext — never log).
    pub fn get_phone(&self) -> (s: &str)
        ensures s@ == self.phone_text(),
    {
        self.phone.as_str()
    }

    /// The home address (plaintext — never log).
    pub fn get_address(&self) -> (s: &str)
        ensures s@ == self.address_text(),
    {
        self.address.as_str()
    }

    /// The role set.
    pub fn get_roles(&self) -> (r: &Vec<Role>)
        ensures r@ == self.roles_seq(),
    {
        &self.roles
    }

    /// The onboarding status.
    pub fn get_onboarding_status(&self) -> (s: OnboardingStatus)
        ensures s == self.status(),
    {
        self.onboarding_status
    }

    /// The optimistic-concurrency token the client echoes back on edit.
    pub fn get_updated_at(&self) -> (t: UnixSeconds)
        ensures t == self.updated(),
    {
        self.updated_at
    }
}

impl MemberDetail {
    /// Project to the wire DTO, revealing the secrets (the sole sanctioned boundary; crate-private,
    /// so the bare view is not a public producer).
    pub(crate) fn to_wire(&self) -> (v: MemberDetailView)
        ensures
            detail_view_matches(v, *self),
    {
        MemberDetailView {
            member_id: self.member_id,
            name: self.name.expose_secret().to_string(),
            phone: self.phone.expose_secret().to_string(),
            address: self.address.expose_secret().to_string(),
            roles: copy_roles(&self.roles),
            onboarding_status: self.onboarding_status,
            updated_at: self.updated_at,
        }
    }
}

// ===== Wire response envelopes =====

/// `GET /api/admin/members` → `{ members: [...] }`. Built only through [`MemberListView::new`].
pub struct MemberListView {
    members: Vec<MemberSummary>,
}

impl MemberListView {
    pub closed spec fn member_list(&self) -> Seq<MemberSummary> { self.members@ }

    /// Wrap the member summaries.
    pub fn new(members: Vec<MemberSummary>) -> (v: MemberListView)
        ensures v.member_list() == members@,
    {
        MemberListView { members }
    }

    /// The member summaries.
    pub fn members(&self) -> (m: &Vec<MemberSummary>)
        ensures m@ == self.member_list(),
    {
        &self.members
    }
}

/// `POST /api/admin/members` 201 → `{ member, onboarding_code, code_expires_at }`. Holds the
/// show-once code as text — must never be logged. Built only through [`MemberIssuedView::new`].
pub struct MemberIssuedView {
    member: MemberSummary,
    onboarding_code: String,
    code_expires_at: UnixSeconds,
}

impl MemberIssuedView {
    pub closed spec fn issued_member(&self) -> MemberSummary { self.member }
    pub closed spec fn code_text(&self) -> Seq<char> { self.onboarding_code@ }
    pub closed spec fn expiry(&self) -> UnixSeconds { self.code_expires_at }

    /// Project an issued member to the wire, revealing the show-once code.
    pub fn new(member: MemberSummary, onboarding_code: &OnboardingCode, code_expires_at: UnixSeconds) -> (v: MemberIssuedView)
        ensures
            v.issued_member() == member,
            v.code_text() == onboarding_code@,
            v.expiry() == code_expires_at,
    {
        MemberIssuedView { member, onboarding_code: onboarding_code.expose_secret().to_string(), code_expires_at }
    }

    /// The new member's summary.
    pub fn member(&self) -> (m: &MemberSummary)
        ensures *m == self.issued_member(),
    {
        &self.member
    }

    /// The show-once code (plaintext — never log).
    pub fn onboarding_code(&self) -> (c: &str)
        ensures c@ == self.code_text(),
    {
        self.onboarding_code.as_str()
    }

    /// The code's expiry.
    pub fn code_expires_at(&self) -> (t: UnixSeconds)
        ensures t == self.expiry(),
    {
        self.code_expires_at
    }
}

/// `POST /api/admin/members` 409 → `{ error_code, existing }` — the duplicate-phone link. Built
/// only through [`DuplicatePhoneLinkView::new`].
pub struct DuplicatePhoneLinkView {
    error_code: &'static str,
    existing: MemberSummary,
}

impl DuplicatePhoneLinkView {
    pub closed spec fn code_text(&self) -> Seq<char> { self.error_code@ }
    pub closed spec fn existing_member(&self) -> MemberSummary { self.existing }

    /// The duplicate-phone link body around the existing member's name-only summary.
    pub fn new(existing: MemberSummary) -> (v: DuplicatePhoneLinkView)
        ensures
            v.existing_member() == existing,
            v.code_text() == "ADMIN_MEMBER_DUPLICATE_PHONE"@,
    {
        DuplicatePhoneLinkView { error_code: "ADMIN_MEMBER_DUPLICATE_PHONE", existing }
    }

    /// The stable error code.
    pub fn error_code(&self) -> (c: &'static str)
        ensures c@ == self.code_text(),
    {
        self.error_code
    }

    /// The existing member's summary.
    pub fn existing(&self) -> (m: &MemberSummary)
        ensures *m == self.existing_member(),
    {
        &self.existing
    }
}

/// `POST /api/admin/members/{id}/regenerate-code` → `{ onboarding_code, code_expires_at }`.
/// Built only through [`RegenerateCodeView::new`].
pub struct RegenerateCodeView {
    onboarding_code: String,
    code_expires_at: UnixSeconds,
}

impl RegenerateCodeView {
    pub closed spec fn code_text(&self) -> Seq<char> { self.onboarding_code@ }
    pub closed spec fn expiry(&self) -> UnixSeconds { self.code_expires_at }

    /// Project a regenerated code to the wire, revealing it.
    pub fn new(onboarding_code: &OnboardingCode, code_expires_at: UnixSeconds) -> (v: RegenerateCodeView)
        ensures
            v.code_text() == onboarding_code@,
            v.expiry() == code_expires_at,
    {
        RegenerateCodeView { onboarding_code: onboarding_code.expose_secret().to_string(), code_expires_at }
    }

    /// The fresh code (plaintext — never log).
    pub fn onboarding_code(&self) -> (c: &str)
        ensures c@ == self.code_text(),
    {
        self.onboarding_code.as_str()
    }

    /// The code's expiry.
    pub fn code_expires_at(&self) -> (t: UnixSeconds)
        ensures t == self.expiry(),
    {
        self.code_expires_at
    }
}

/// `GET /api/admin/audit-log` → `{ entries: [...] }` — field names only. Built only through
/// [`AuditLogView::new`].
pub struct AuditLogView {
    entries: Vec<AuditEntry>,
}

impl AuditLogView {
    pub closed spec fn entry_list(&self) -> Seq<AuditEntry> { self.entries@ }

    /// Wrap the audit entries.
    pub fn new(entries: Vec<AuditEntry>) -> (v: AuditLogView)
        ensures v.entry_list() == entries@,
    {
        AuditLogView { entries }
    }

    /// The audit entries.
    pub fn entries(&self) -> (e: &Vec<AuditEntry>)
        ensures e@ == self.entry_list(),
    {
        &self.entries
    }
}

// ===== Audit =====

/// A member-PII field, recorded in an audit entry by name, never value.
#[derive(Debug, Clone, Copy, PartialEq, Eq, Structural)]
pub enum AuditField {
    Name,
    Phone,
    Address,
}

/// The lowercase token of each audited field.
pub open spec fn audit_field_token(f: AuditField) -> &'static str {
    match f {
        AuditField::Name => "name",
        AuditField::Phone => "phone",
        AuditField::Address => "address",
    }
}

impl AuditField {
    /// The stable lowercase token stored in the audit log and sent on the wire.
    pub fn as_str(self) -> (s: &'static str)
        ensures
            s@ == audit_field_token(self)@,
    {
        match self {
            AuditField::Name => "name",
            AuditField::Phone => "phone",
            AuditField::Address => "address",
        }
    }
}

/// One admin-PII-read audit record: server-time timestamp, the acting admin, the member read, the
/// field names returned, and the server-minted request id. Carries no PII value.
#[derive(Debug, Clone, PartialEq, Eq)]
pub struct AuditEntry {
    pub timestamp: UnixSeconds,
    pub admin_id: MemberId,
    pub member_id: MemberId,
    pub fields: Vec<AuditField>,
    pub request_id: String,
}

// ===== Errors + outcomes =====

/// A member operation was rejected for a stable reason.
#[derive(Debug, Clone, Copy, PartialEq, Eq, Structural)]
pub enum MemberError {
    /// The phone could not be normalized to E.164.
    PhoneInvalid,
    /// The address is empty after trimming.
    AddressInvalid,
    /// No role selected — a member must hold at least one.
    RolesRequired,
    /// No usable group key (or a field would not decrypt) — fail closed.
    GroupKeyMissing,
}

/// The stable code of each member error.
pub open spec fn member_error_code(e: MemberError) -> &'static str {
    match e {
        MemberError::PhoneInvalid => "ADMIN_MEMBER_PHONE_INVALID",
        MemberError::AddressInvalid => "ADMIN_MEMBER_ADDRESS_INVALID",
        MemberError::RolesRequired => "ADMIN_MEMBER_ROLES_REQUIRED",
        MemberError::GroupKeyMissing => "ADMIN_GROUP_KEY_MISSING",
    }
}

impl MemberError {
    /// The stable error code.
    pub fn error_code(self) -> (code: &'static str)
        ensures
            code@ == member_error_code(self)@,
    {
        match self {
            MemberError::PhoneInvalid => "ADMIN_MEMBER_PHONE_INVALID",
            MemberError::AddressInvalid => "ADMIN_MEMBER_ADDRESS_INVALID",
            MemberError::RolesRequired => "ADMIN_MEMBER_ROLES_REQUIRED",
            MemberError::GroupKeyMissing => "ADMIN_GROUP_KEY_MISSING",
        }
    }
}

/// The result of an issuance.
pub enum IssueMemberOutcome {
    /// The member was created; the Onboarding Code is returned once with its expiry.
    Issued { member: MemberSummary, onboarding_code: OnboardingCode, code_expires_at: UnixSeconds },
    /// The phone is already enrolled; the existing member is surfaced (name only), audited.
    DuplicatePhone { existing: MemberSummary },
    /// Rejected for a stable reason.
    Rejected(MemberError),
}

impl IssueMemberOutcome {
    /// The stable error code, or `None` on a clean issue.
    pub fn error_code(&self) -> (code: Option<&'static str>)
        ensures
            match self {
                IssueMemberOutcome::Issued { .. } => code is None,
                IssueMemberOutcome::DuplicatePhone { .. } => (code matches Some(c) && c@ == "ADMIN_MEMBER_DUPLICATE_PHONE"@),
                IssueMemberOutcome::Rejected(e) => (code matches Some(c) && c@ == member_error_code(*e)@),
            },
    {
        match self {
            IssueMemberOutcome::Issued { .. } => None,
            IssueMemberOutcome::DuplicatePhone { .. } => Some("ADMIN_MEMBER_DUPLICATE_PHONE"),
            IssueMemberOutcome::Rejected(e) => Some(e.error_code()),
        }
    }
}

/// The result of an edit (optimistic concurrency).
#[derive(Debug, Clone, Copy, PartialEq, Eq, Structural)]
pub enum EditMemberOutcome {
    Updated,
    /// A concurrent edit moved the row (or the member is gone).
    Stale,
    Rejected(MemberError),
}

impl EditMemberOutcome {
    /// The stable error code, or `None` on a clean edit.
    pub fn error_code(self) -> (code: Option<&'static str>)
        ensures
            match self {
                EditMemberOutcome::Updated => code is None,
                EditMemberOutcome::Stale => (code matches Some(c) && c@ == "ADMIN_MEMBER_EDIT_STALE"@),
                EditMemberOutcome::Rejected(e) => (code matches Some(c) && c@ == member_error_code(e)@),
            },
    {
        match self {
            EditMemberOutcome::Updated => None,
            EditMemberOutcome::Stale => Some("ADMIN_MEMBER_EDIT_STALE"),
            EditMemberOutcome::Rejected(e) => Some(e.error_code()),
        }
    }
}

/// The result of the audited detail read.
pub enum DetailRead {
    /// The decrypted detail, inside the audited carrier.
    Detail(Box<PiiDisclosure<MemberDetailView>>),
    /// No such member — no PII read, no audit row.
    NotFound,
    /// The group key (or a stored field) could not be decrypted — fail closed.
    GroupKeyMissing,
}

impl DetailRead {
    /// The stable error code, or `None` for a successful read / a plain not-found.
    pub fn error_code(&self) -> (code: Option<&'static str>)
        ensures
            self is GroupKeyMissing ==> (code matches Some(c) && c@ == "ADMIN_GROUP_KEY_MISSING"@),
            !(self is GroupKeyMissing) ==> code is None,
    {
        match self {
            DetailRead::GroupKeyMissing => Some("ADMIN_GROUP_KEY_MISSING"),
            _ => None,
        }
    }
}

/// The result of regenerating an Onboarding Code.
pub enum RegenerateOutcome {
    /// A fresh code was minted (the prior live code superseded); shown once with its expiry.
    Regenerated { onboarding_code: OnboardingCode, code_expires_at: UnixSeconds },
    /// No such member.
    NotFound,
}

// ===== Inputs =====

/// An issuance request: PII (the phone as the admin entered it) and the issuable roles.
pub struct IssueMemberInput {
    pub name: MemberName,
    pub phone: PhoneNumber,
    pub address: Address,
    pub roles: Vec<IssuableRole>,
}

/// An edit request: each field optional (only changed fields are re-validated / re-encrypted);
/// `expected_updated_at` is the optimistic-concurrency token.
pub struct EditMemberInput {
    pub name: Option<MemberName>,
    pub phone: Option<PhoneNumber>,
    pub address: Option<Address>,
    pub roles: Option<Vec<IssuableRole>>,
    pub expected_updated_at: UnixSeconds,
}

// ===== Store shapes =====

/// What the store writes for a new member in one transaction with the code mint. No plaintext.
pub struct NewMemberWrite {
    pub created_by: MemberId,
    pub roles: Vec<Role>,
    pub phone_lookup: PhoneLookupHash,
    pub phone_encrypted: Vec<u8>,
    pub name_encrypted: Vec<u8>,
    pub address_encrypted: Vec<u8>,
    pub onboarding_code_hash: CodeHash,
    pub code_expires_at: UnixSeconds,
}

/// The audit context the store stamps on the duplicate-phone disclosure, iff the insert conflicts.
pub struct DuplicateDisclosureAudit {
    pub request_id: String,
    pub fields: Vec<AuditField>,
}

/// A member's stored summary row: the encrypted name plus the PII-free fields.
pub struct StoredMemberSummary {
    pub member_id: MemberId,
    pub name_encrypted: Vec<u8>,
    pub roles: Vec<Role>,
    pub onboarding_status: OnboardingStatus,
}

/// A member's full stored PII row: three ciphertexts plus the PII-free fields.
pub struct StoredMemberPii {
    pub member_id: MemberId,
    pub name_encrypted: Vec<u8>,
    pub phone_encrypted: Vec<u8>,
    pub address_encrypted: Vec<u8>,
    pub roles: Vec<Role>,
    pub onboarding_status: OnboardingStatus,
    pub updated_at: UnixSeconds,
}

/// The new ciphertexts/hashes an edit applies for changed fields only (`None` = leave as is).
pub struct MemberEditWrite {
    pub name_encrypted: Option<Vec<u8>>,
    pub phone_lookup: Option<PhoneLookupHash>,
    pub phone_encrypted: Option<Vec<u8>>,
    pub address_encrypted: Option<Vec<u8>>,
    pub roles: Option<Vec<Role>>,
}

/// The store's outcome of the atomic member + code insert.
pub enum InsertMemberOutcome {
    Created(MemberId),
    /// The phone is already enrolled; the existing member's row, fetched and audited atomically.
    DuplicatePhone(StoredMemberSummary),
}

/// The store's outcome of an edit under optimistic concurrency.
#[derive(Debug, Clone, Copy, PartialEq, Eq, Structural)]
pub enum EditApplied {
    Updated,
    Stale,
}

// ===== Decisions =====

/// Whether `s` is empty once surrounding whitespace is trimmed.
fn is_blank(s: &str) -> (b: bool)
    ensures
        b == (trim(s@).len() == 0),
{
    let cs = chars_of(s);
    let (lo, hi) = trim_bounds(&cs);
    lo == hi
}

/// What issuance decides from its input before anything is written: no role, then a phone that
/// does not normalize, then a blank address are rejected in that order; otherwise the phone's
/// canonical E.164 form is what gets hashed and encrypted.
pub open spec fn issue_check(roles_empty: bool, phone: Seq<char>, address: Seq<char>) -> Result<Seq<char>, MemberError> {
    if roles_empty {
        Err(MemberError::RolesRequired)
    } else if normalize_phone_spec(phone) is Err {
        Err(MemberError::PhoneInvalid)
    } else if trim(address).len() == 0 {
        Err(MemberError::AddressInvalid)
    } else {
        Ok(normalize_phone_spec(phone)->Ok_0)
    }
}

/// Validate an issuance request and canonicalize its phone (the form the sign-in lookup hash
/// matches).
pub fn validate_issue(input: &IssueMemberInput) -> (r: Result<PhoneNumber, MemberError>)
    ensures
        match r {
            Ok(p) => issue_check(input.roles@.len() == 0, input.phone@, input.address@) == Ok::<Seq<char>, MemberError>(p@),
            Err(e) => issue_check(input.roles@.len() == 0, input.phone@, input.address@) == Err::<Seq<char>, MemberError>(e),
        },
{
    if input.roles.len() == 0 {
        return Err(MemberError::RolesRequired);
    }
    let phone = match normalize_phone(input.phone.expose_secret()) {
        Ok(p) => p,
        Err(_) => return Err(MemberError::PhoneInvalid),
    };
    if is_blank(input.address.expose_secret()) {
        return Err(MemberError::AddressInvalid);
    }
    Ok(phone)
}

/// The member surface's view of the group-key gate: no usable key is `GroupKeyMissing`.
pub fn member_group_key<K>(loaded: Result<K, crate::bootstrap::GroupKeyMissing>) -> (r: Result<K, MemberError>)
    ensures
        match loaded {
            Ok(k) => r == Ok::<K, MemberError>(k),
            Err(_) => r == Err::<K, MemberError>(MemberError::GroupKeyMissing),
        },
{
    match loaded {
        Ok(k) => Ok(k),
        Err(_) => Err(MemberError::GroupKeyMissing),
    }
}

/// The server-time expiry of an Onboarding Code minted at `now`.
pub fn code_expiry(now: UnixSeconds) -> (t: UnixSeconds)
    ensures
        t.0 == saturating_add_spec(now.0, ONBOARDING_CODE_TTL_SECS),
{
    now.saturating_add_secs(ONBOARDING_CODE_TTL_SECS)
}

/// The row written for a new member: the given hashes and ciphertexts, the issuable roles as
/// roles, and the code's expiry.
pub fn new_member_write(
    created_by: MemberId,
    roles: &Vec<IssuableRole>,
    phone_lookup: PhoneLookupHash,
    phone_encrypted: Vec<u8>,
    name_encrypted: Vec<u8>,
    address_encrypted: Vec<u8>,
    onboarding_code_hash: CodeHash,
    code_expires_at: UnixSeconds,
) -> (w: NewMemberWrite)
    ensures
        w.created_by == created_by,
        w.roles@ == roles_of(roles@),
        w.phone_lookup == phone_lookup,
        w.phone_encrypted == phone_encrypted,
        w.name_encrypted == name_encrypted,
        w.address_encrypted == address_encrypted,
        w.onboarding_code_hash == onboarding_code_hash,
        w.code_expires_at == code_expires_at,
{
    NewMemberWrite {
        created_by,
        roles: to_roles(roles),
        phone_lookup,
        phone_encrypted,
        name_encrypted,
        address_encrypted,
        onboarding_code_hash,
        code_expires_at,
    }
}

/// The audit context stamped on a duplicate-phone disclosure: the name alone is disclosed.
pub fn duplicate_disclosure(request_id: String) -> (d: DuplicateDisclosureAudit)
    ensures
        d.request_id == request_id,
        d.fields@ == seq![AuditField::Name],
{
    DuplicateDisclosureAudit { request_id, fields: vec![AuditField::Name] }
}

/// A successful issuance: the new member's summary (name from the input, no decrypt needed,
/// status `IssuedNotOnboarded`), the show-once code and its expiry.
pub fn issued(
    member_id: MemberId,
    name: &MemberName,
    roles: Vec<Role>,
    onboarding_code: OnboardingCode,
    code_expires_at: UnixSeconds,
) -> (o: IssueMemberOutcome)
    ensures
        o matches IssueMemberOutcome::Issued { member, onboarding_code: c, code_expires_at: t }
            && member.member_id == member_id && member.name@ == name@ && member.roles == roles
            && member.onboarding_status == OnboardingStatus::IssuedNotOnboarded
            && c == onboarding_code && t == code_expires_at,
{
    let member = MemberSummary {
        member_id,
        name: name.expose_secret().to_string(),
        roles,
        onboarding_status: OnboardingStatus::IssuedNotOnboarded,
    };
    IssueMemberOutcome::Issued { member, onboarding_code, code_expires_at }
}

/// A stored summary row whose name decrypted to `name_bytes`, as a list summary.
pub fn summary_from_row(row: StoredMemberSummary, name_bytes: &[u8]) -> (m: MemberSummary)
    ensures
        m.member_id == row.member_id,
        decodes_to(name_bytes@, m.name@),
        m.roles == row.roles,
        m.onboarding_status == row.onboarding_status,
{
    MemberSummary {
        member_id: row.member_id,
        name: decode_field(name_bytes),
        roles: row.roles,
        onboarding_status: row.onboarding_status,
    }
}

/// A duplicate-phone insert: the existing member surfaced by name, or — when its name does not
/// decrypt (`None`) — fail closed with `GroupKeyMissing`.
pub fn duplicate_found(existing: StoredMemberSummary, decrypted_name: Option<Vec<u8>>) -> (o: IssueMemberOutcome)
    ensures
        decrypted_name is None ==> o == IssueMemberOutcome::Rejected(MemberError::GroupKeyMissing),
        decrypted_name matches Some(b) ==> (o matches IssueMemberOutcome::DuplicatePhone { existing: m }
            && m.member_id == existing.member_id && decodes_to(b@, m.name@)
            && m.roles == existing.roles && m.onboarding_status == existing.onboarding_status),
{
    match decrypted_name {
        Some(b) => IssueMemberOutcome::DuplicatePhone { existing: summary_from_row(existing, b.as_slice()) },
        None => IssueMemberOutcome::Rejected(MemberError::GroupKeyMissing),
    }
}

/// `m` is the list summary of `row` whose name decrypted to `name`.
pub open spec fn summarizes(m: MemberSummary, row: StoredMemberSummary, name: Seq<u8>) -> bool {
    &&& m.member_id == row.member_id
    &&& decodes_to(name, m.name@)
    &&& m.roles == row.roles
    &&& m.onboarding_status == row.onboarding_status
}

/// The member list from the stored rows and what each row's name decrypted to (`None` where it
/// did not): every row summarized in order, or `GroupKeyMissing` if any name failed.
pub fn list_summaries(rows: Vec<StoredMemberSummary>, names: Vec<Option<Vec<u8>>>) -> (r: Result<Vec<MemberSummary>, MemberError>)
    requires
        rows@.len() == names@.len(),
    ensures
        r is Err <==> exists|i: int| 0 <= i < names@.len() && names@[i] is None,
        r matches Err(e) ==> e == MemberError::GroupKeyMissing,
        r matches Ok(v) ==> v@.len() == rows@.len() && forall|i: int| 0 <= i < v@.len()
            ==> #[trigger] summarizes(v@[i], rows@[i], names@[i]->Some_0@),
{
    let ghost rows0 = rows@;
    let ghost names0 = names@;
    let mut rest_rows = rows;
    let mut rest_names = names;
    let mut out: Vec<MemberSummary> = Vec::new();
    let mut i: usize = 0;
    let n = rest_rows.len();
    while i < n
        invariant
            rows0 == rows@,
            names0 == names@,
            n == rows0.len() == names0.len(),
            i <= n,
            rest_rows@.len() == rest_names@.len() == n - i,
            forall|j: int| 0 <= j < n - i ==> rest_rows@[j] == rows0[j + i] && rest_names@[j] == names0[j + i],
            forall|j: int| 0 <= j < i ==> names0[j] is Some,
            out@.len() == i,
            forall|j: int| 0 <= j < i ==> #[trigger] summarizes(out@[j], rows0[j], names0[j]->Some_0@),
        decreases n - i,
    {
        let ghost rows_before = rest_rows@;
        let ghost names_before = rest_names@;
        let ghost out_before = out@;
        let row = rest_rows.remove(0);
        let name = rest_names.remove(0);
        assert(row == rows0[i as int] && name == names0[i as int]);
        assert forall|j: int| 0 <= j < n - i - 1 implies rest_rows@[j] == rows0[j + i + 1] && rest_names@[j] == names0[j + i + 1] by {
            assert(rest_rows@[j] == rows_before[j + 1]);
            assert(rest_names@[j] == names_before[j + 1]);
        }
        match name {
            Some(b) => {
                let m = summary_from_row(row, b.as_slice());
                out.push(m);
                assert forall|j: int| 0 <= j < i + 1 implies names0[j] is Some by {
                    if j == i {
                        assert(names0[j] == name);
                    }
                }
                assert forall|j: int| 0 <= j < i + 1 implies #[trigger] summarizes(out@[j], rows0[j], names0[j]->Some_0@) by {
                    if j < i {
                        assert(out@[j] == out_before[j]);
                        assert(summarizes(out_before[j], rows0[j], names0[j]->Some_0@));
                    } else {
                        assert(out@[j] == m);
                    }
                }
            },
            None => {
                assert(names0[i as int] is None);
                return Err(MemberError::GroupKeyMissing);
            },
        }
        i = i + 1;
    }
    assert(!(exists|j: int| 0 <= j < names0.len() && names0[j] is None)) by {
        assert forall|j: int| 0 <= j < names0.len() implies names0[j] is Some by {}
    }
    Ok(out)
}

/// The audit entry for a member-detail read: server time, actor, subject, the three PII field
/// names, and the request id.
pub fn detail_audit(actor_admin: MemberId, member_id: MemberId, request_id: String, now: UnixSeconds) -> (a: AuditEntry)
    ensures
        a.timestamp == now,
        a.admin_id == actor_admin,
        a.member_id == member_id,
        a.fields@ == seq![AuditField::Name, AuditField::Phone, AuditField::Address],
        a.request_id == request_id,
{
    AuditEntry {
        timestamp: now,
        admin_id: actor_admin,
        member_id,
        fields: vec![AuditField::Name, AuditField::Phone, AuditField::Address],
        request_id,
    }
}

/// The audit entry of one detail read, issued only by [`detail_begin`]; [`detail_read`] redeems
/// it, so a disclosure can carry no audit entry but one this library composed for the read.
pub struct AuditTicket {
    audit: AuditEntry,
}

impl AuditTicket {
    pub closed spec fn entry(&self) -> AuditEntry { self.audit }

    /// The entry the store must commit in the same transaction as the ciphertext read.
    pub fn audit(&self) -> (a: &AuditEntry)
        ensures *a == self.entry(),
    {
        &self.audit
    }
}

/// The first step of an audited detail read.
pub enum DetailStep<K> {
    /// Reply at once (no usable group key: nothing is read or audited).
    Respond(DetailRead),
    /// Read the ciphertext and commit the ticket's audit entry in one transaction, then decrypt
    /// under `key`.
    ReadAudited { key: K, ticket: AuditTicket },
}

/// Begin an audited detail read: the key gate first (fail closed, no audit), then the audit entry
/// that must be committed with the ciphertext read.
pub fn detail_begin<K>(
    key: Result<K, crate::bootstrap::GroupKeyMissing>,
    actor_admin: MemberId,
    member_id: MemberId,
    request_id: String,
    now: UnixSeconds,
) -> (step: DetailStep<K>)
    ensures
        key is Err ==> step matches DetailStep::Respond(DetailRead::GroupKeyMissing),
        key matches Ok(k) ==> (step matches DetailStep::ReadAudited { key: k2, ticket }
            && k2 == k && ticket.entry() == (AuditEntry {
                timestamp: now,
                admin_id: actor_admin,
                member_id,
                fields: ticket.entry().fields,
                request_id,
            })
            && ticket.entry().fields@ == seq![AuditField::Name, AuditField::Phone, AuditField::Address]),
{
    match key {
        Ok(k) => DetailStep::ReadAudited { key: k, ticket: AuditTicket { audit: detail_audit(actor_admin, member_id, request_id, now) } },
        Err(_) => DetailStep::Respond(DetailRead::GroupKeyMissing),
    }
}

/// The view of a stored PII row whose name, phone and address decrypted to the given bytes.
pub open spec fn detail_of(stored: StoredMemberPii, name: Seq<u8>, phone: Seq<u8>, address: Seq<u8>, v: MemberDetailView) -> bool {
    &&& v.member_id() == stored.member_id
    &&& decodes_to(name, v.name_text())
    &&& decodes_to(phone, v.phone_text())
    &&& decodes_to(address, v.address_text())
    &&& v.roles_seq() == stored.roles@
    &&& v.status() == stored.onboarding_status
    &&& v.updated() == stored.updated_at
}

/// Finish an audited detail read, given what the audited read found (`None`: no such member, no
/// audit row) and what its three fields decrypted to (`None`: a field did not decrypt — fail
/// closed). The disclosure carries the ticket's audit entry.
pub fn detail_read(ticket: AuditTicket, stored: Option<StoredMemberPii>, decrypted: Option<(Vec<u8>, Vec<u8>, Vec<u8>)>) -> (r: DetailRead)
    ensures
        stored is None ==> r is NotFound,
        stored is Some && decrypted is None ==> r is GroupKeyMissing,
        stored matches Some(row) ==> (decrypted matches Some(bytes) ==> (r matches DetailRead::Detail(d)
            && d.audit_entry() == ticket.entry()
            && detail_of(row, bytes.0@, bytes.1@, bytes.2@, d.disclosed()))),
{
    let row = match stored {
        Some(row) => row,
        None => return DetailRead::NotFound,
    };
    let (name, phone, address) = match decrypted {
        Some(b) => b,
        None => return DetailRead::GroupKeyMissing,
    };
    let detail = MemberDetail {
        member_id: row.member_id,
        name: MemberName::new(decode_field(name.as_slice())),
        phone: PhoneNumber::new(decode_field(phone.as_slice())),
        address: Address::new(decode_field(address.as_slice())),
        roles: row.roles,
        onboarding_status: row.onboarding_status,
        updated_at: row.updated_at,
    };
    DetailRead::Detail(Box::new(PiiDisclosure::new(ticket.audit, detail.to_wire())))
}

/// What an edit decided before the store is touched: the canonical form of a changed phone, and
/// whether any PII field changed (so the group key is needed).
pub struct EditPlan {
    pub normalized_phone: Option<PhoneNumber>,
    pub needs_key: bool,
}

/// What an edit decides from its input: an explicitly empty role set, then a changed phone that
/// does not normalize, then a changed blank address are rejected in that order; otherwise the
/// canonical form of the changed phone, if any.
pub open spec fn edit_check(
    roles: Option<Seq<IssuableRole>>,
    phone: Option<Seq<char>>,
    address: Option<Seq<char>>,
) -> Result<Option<Seq<char>>, MemberError> {
    if roles matches Some(rs) && rs.len() == 0 {
        Err(MemberError::RolesRequired)
    } else if phone matches Some(p) && normalize_phone_spec(p) is Err {
        Err(MemberError::PhoneInvalid)
    } else if address matches Some(a) && trim(a).len() == 0 {
        Err(MemberError::AddressInvalid)
    } else {
        match phone {
            Some(p) => Ok(Some(normalize_phone_spec(p)->Ok_0)),
            None => Ok(None),
        }
    }
}

/// The view of an optional secret string.
pub open spec fn opt_text<T: View<V = Seq<char>>>(o: Option<T>) -> Option<Seq<char>> {
    match o {
        Some(t) => Some(t@),
        None => None,
    }
}

/// The view of an optional role set.
pub open spec fn opt_roles(o: Option<Vec<IssuableRole>>) -> Option<Seq<IssuableRole>> {
    match o {
        Some(v) => Some(v@),
        None => None,
    }
}

/// Validate an edit: only changed fields are checked, and a changed phone is canonicalized.
pub fn validate_edit(input: &EditMemberInput) -> (r: Result<EditPlan, MemberError>)
    ensures
        match r {
            Ok(plan) => {
                &&& edit_check(opt_roles(input.roles), opt_text(input.phone), opt_text(input.address))
                    == Ok::<Option<Seq<char>>, MemberError>(opt_text(plan.normalized_phone))
                &&& plan.needs_key == (input.name is Some || input.phone is Some || input.address is Some)
            },
            Err(e) => edit_check(opt_roles(input.roles), opt_text(input.phone), opt_text(input.address))
                == Err::<Option<Seq<char>>, MemberError>(e),
        },
{
    match &input.roles {
        Some(rs) => {
            if rs.len() == 0 {
                return Err(MemberError::RolesRequired);
            }
        },
        None => {},
    }
    let normalized_phone = match &input.phone {
        Some(raw) => match normalize_phone(raw.expose_secret()) {
            Ok(p) => Some(p),
            Err(_) => return Err(MemberError::PhoneInvalid),
        },
        None => None,
    };
    match &input.address {
        Some(a) => {
            if is_blank(a.expose_secret()) {
                return Err(MemberError::AddressInvalid);
            }
        },
        None => {},
    }
    let needs_key = input.name.is_some() || input.phone.is_some() || input.address.is_some();
    Ok(EditPlan { normalized_phone, needs_key })
}

/// The edit write from the changed fields' new ciphertexts and hashes (`None`: unchanged), with a
/// changed role set as roles.
pub fn edit_write(
    name_encrypted: Option<Vec<u8>>,
    phone: Option<(PhoneLookupHash, Vec<u8>)>,
    address_encrypted: Option<Vec<u8>>,
    roles: Option<Vec<IssuableRole>>,
) -> (w: MemberEditWrite)
    ensures
        w.name_encrypted == name_encrypted,
        w.address_encrypted == address_encrypted,
        phone is None ==> w.phone_lookup is None && w.phone_encrypted is None,
        phone matches Some(p) ==> w.phone_lookup == Some(p.0) && w.phone_encrypted == Some(p.1),
        roles is None ==> w.roles is None,
        roles matches Some(rs) ==> (w.roles matches Some(out) && out@ == roles_of(rs@)),
{
    let (phone_lookup, phone_encrypted) = match phone {
        Some((h, c)) => (Some(h), Some(c)),
        None => (None, None),
    };
    let roles = match roles {
        Some(rs) => Some(to_roles(&rs)),
        None => None,
    };
    MemberEditWrite { name_encrypted, phone_lookup, phone_encrypted, address_encrypted, roles }
}

/// The edit outcome from what the store applied.
pub fn edit_outcome(applied: EditApplied) -> (o: EditMemberOutcome)
    ensures
        applied == EditApplied::Updated ==> o == EditMemberOutcome::Updated,
        applied == EditApplied::Stale ==> o == EditMemberOutcome::Stale,
{
    match applied {
        EditApplied::Updated => EditMemberOutcome::Updated,
        EditApplied::Stale => EditMemberOutcome::Stale,
    }
}

/// The regenerate outcome: the fresh code and its expiry iff the member existed.
pub fn regenerate_outcome(found: bool, onboarding_code: OnboardingCode, code_expires_at: UnixSeconds) -> (o: RegenerateOutcome)
    ensures
        found ==> o == (RegenerateOutcome::Regenerated { onboarding_code, code_expires_at }),
        !found ==> o is NotFound,
{
    if found {
        RegenerateOutcome::Regenerated { onboarding_code, code_expires_at }
    } else {
        RegenerateOutcome::NotFound
    }
}

/// Issuance and edit canonicalize a phone identically, and the canonical form is a fixed point of
/// normalization — so the lookup hash written for an issued or edited phone is the one a later
/// sign-in with that number (normalized the same way) matches.
pub proof fn lemma_issue_and_edit_canonicalize_alike(phone: Seq<char>, address: Seq<char>)
    requires
        issue_check(false, phone, address) is Ok,
    ensures
        edit_check(None, Some(phone), None) == Ok::<Option<Seq<char>>, MemberError>(Some(issue_check(false, phone, address)->Ok_0)),
        normalize_phone_spec(issue_check(false, phone, address)->Ok_0)
            == Ok::<Seq<char>, crate::phone::PhoneNormalizeError>(issue_check(false, phone, address)->Ok_0),
{
    crate::phone::lemma_normalize_phone_idempotent(phone);
}

/// A changed phone that passes validation is always carried, canonicalized, whatever else the edit
/// changes: the other fields only decide whether the edit is valid, never which phone is kept.
pub proof fn lemma_edit_keeps_a_changed_phone(
    roles: Option<Seq<IssuableRole>>,
    phone: Seq<char>,
    address: Option<Seq<char>>,
)
    requires
        edit_check(roles, Some(phone), address) is Ok,
    ensures
        normalize_phone_spec(phone) is Ok,
        edit_check(roles, Some(phone), address)
            == Ok::<Option<Seq<char>>, MemberError>(Some(normalize_phone_spec(phone)->Ok_0)),
        edit_check(roles, Some(phone), address) == edit_check(None, Some(phone), None),
{
}

} // verus!
