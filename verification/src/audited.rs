//! The audit gate. [`PiiDisclosure`] is the only carrier of a member-PII detail. Outside this
//! crate one is obtained only from `member::detail_read`, which redeems an `AuditTicket` that
//! `member::detail_begin` issued for that read; so every disclosure carries the audit entry this
//! library composed for the read. That the entry was committed in the same transaction as the
//! ciphertext read is the store's part (its audited-read port). The sealed [`AuditedResponse`]
//! marker lists what the admin surface may send.
use vstd::prelude::*;

use crate::admin_webauthn::{AdminCredential, AdminInviteRecord, AdminRegisterCompleteResult};
use crate::member::{
    AuditEntry, AuditLogView, DuplicatePhoneLinkView, MemberIssuedView, MemberListView,
    MemberSummary, RegenerateCodeView,
};

mod sealed;

verus! {

/// A disclosure of member PII to an admin: the payload together with the audit entry issued for
/// the read. Its constructor is crate-private; outside the crate it comes only from
/// `member::detail_read`. Not `Debug`.
pub struct PiiDisclosure<T> {
    audit: AuditEntry,
    payload: T,
}

impl<T> PiiDisclosure<T> {
    pub closed spec fn audit_entry(&self) -> AuditEntry { self.audit }
    pub closed spec fn disclosed(&self) -> T { self.payload }

    /// The sole constructor — called only by `member::detail_read`, with the entry of the ticket
    /// it redeems.
    pub(crate) fn new(audit: AuditEntry, payload: T) -> (d: Self)
        ensures
            d.audit_entry() == audit,
            d.disclosed() == payload,
    {
        PiiDisclosure { audit, payload }
    }

    /// The audit entry issued for the read.
    pub fn audit(&self) -> (a: &AuditEntry)
        ensures *a == self.audit_entry(),
    {
        &self.audit
    }

    /// The PII payload. Never log it.
    pub fn payload(&self) -> (p: &T)
        ensures *p == self.disclosed(),
    {
        &self.payload
    }

    /// Decompose into `(audit, payload)`.
    pub fn into_parts(self) -> (parts: (AuditEntry, T))
        ensures parts == (self.audit_entry(), self.disclosed()),
    {
        (self.audit, self.payload)
    }
}

/// A value the admin surface may send to a client — sealed: only this crate decides the list.
/// The only PII-bearing implementor is [`PiiDisclosure`]; everything else is PII-free.
pub trait AuditedResponse: sealed::Sealed {}

impl<T> sealed::Sealed for PiiDisclosure<T> {}
impl<T> AuditedResponse for PiiDisclosure<T> {}
impl sealed::Sealed for MemberSummary {}
impl AuditedResponse for MemberSummary {}
impl sealed::Sealed for Vec<MemberSummary> {}
impl AuditedResponse for Vec<MemberSummary> {}
impl sealed::Sealed for Vec<AuditEntry> {}
impl AuditedResponse for Vec<AuditEntry> {}
impl sealed::Sealed for MemberListView {}
impl AuditedResponse for MemberListView {}
impl sealed::Sealed for MemberIssuedView {}
impl AuditedResponse for MemberIssuedView {}
impl sealed::Sealed for DuplicatePhoneLinkView {}
impl AuditedResponse for DuplicatePhoneLinkView {}
impl sealed::Sealed for RegenerateCodeView {}
impl AuditedResponse for RegenerateCodeView {}
impl sealed::Sealed for AuditLogView {}
impl AuditedResponse for AuditLogView {}
impl sealed::Sealed for AdminInviteRecord {}
impl AuditedResponse for AdminInviteRecord {}
impl sealed::Sealed for AdminCredential {}
impl AuditedResponse for AdminCredential {}
impl sealed::Sealed for AdminRegisterCompleteResult {}
impl AuditedResponse for AdminRegisterCompleteResult {}

} // verus!
