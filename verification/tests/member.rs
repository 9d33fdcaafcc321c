//! Admin member management: the issuance / edit validation, the issued and duplicate-phone
//! outcomes, the list and detail projections with their audit, and the regenerate outcome.

use boundless_server_core::member::{
    code_expiry, detail_begin, detail_read, duplicate_disclosure, duplicate_found, edit_outcome,
    edit_write, issued, list_summaries, member_group_key, new_member_write, regenerate_outcome,
    validate_edit, validate_issue, DetailStep,
};
use boundless_server_core::{
    decode_field, issuable_roles, load_group_key, Address, AdminRoleForbidden, AuditField,
    CodeHash, DetailRead, EditApplied, EditMemberInput, EditMemberOutcome, GroupKeyMissing,
    IssuableRole, IssueMemberInput, IssueMemberOutcome, MemberError, MemberId, MemberName,
    OnboardingCode, OnboardingStatus, PhoneLookupHash, PhoneNumber, RegenerateOutcome, Role,
    StoredMemberPii, StoredMemberSummary, UnixSeconds, ONBOARDING_CODE_TTL_SECS,
};

const NOW: i64 = 1_000;

fn input(name: &str, phone: &str, address: &str, roles: Vec<IssuableRole>) -> IssueMemberInput {
    IssueMemberInput {
        name: MemberName::new(name.to_string()),
        phone: PhoneNumber::new(phone.to_string()),
        address: Address::new(address.to_string()),
        roles,
    }
}

fn edit(phone: Option<&str>, address: Option<&str>, roles: Option<Vec<IssuableRole>>) -> EditMemberInput {
    EditMemberInput {
        name: None,
        phone: phone.map(|p| PhoneNumber::new(p.to_string())),
        address: address.map(|a| Address::new(a.to_string())),
        roles,
        expected_updated_at: UnixSeconds::new(NOW),
    }
}

fn rejected(e: MemberError) -> IssueMemberOutcome {
    IssueMemberOutcome::Rejected(e)
}

#[test]
fn member_service_rejects_admin_role_on_issuance() {
    let err = issuable_roles(&[Role::Rider, Role::Admin]).unwrap_err();
    assert_eq!(err, AdminRoleForbidden);
    assert_eq!(err.error_code(), "ADMIN_MEMBER_ROLE_FORBIDDEN");
    assert!(issuable_roles(&[Role::Admin]).is_err());
    assert_eq!(
        issuable_roles(&[Role::Rider, Role::Driver]).unwrap(),
        vec![IssuableRole::Rider, IssuableRole::Driver]
    );
}

#[test]
fn member_service_rejects_invalid_phone_and_address() {
    let bad_phone = validate_issue(&input("Maria", "5551230001", "12 Olive St", vec![IssuableRole::Rider]));
    assert!(matches!(bad_phone, Err(MemberError::PhoneInvalid)));
    let outcome = rejected(bad_phone.err().unwrap());
    assert_eq!(outcome.error_code(), Some("ADMIN_MEMBER_PHONE_INVALID"));

    let bad_addr = validate_issue(&input("Maria", "+15551230001", "   ", vec![IssuableRole::Rider]));
    assert!(matches!(bad_addr, Err(MemberError::AddressInvalid)));
    let outcome = rejected(bad_addr.err().unwrap());
    assert_eq!(outcome.error_code(), Some("ADMIN_MEMBER_ADDRESS_INVALID"));
}

#[test]
fn member_service_rejects_empty_roles() {
    let r = validate_issue(&input("Maria", "+15551230001", "12 Olive St", vec![]));
    assert!(matches!(r, Err(MemberError::RolesRequired)));
    let outcome = rejected(r.err().unwrap());
    assert_eq!(outcome.error_code(), Some("ADMIN_MEMBER_ROLES_REQUIRED"));
}

#[test]
fn member_service_edit_to_empty_roles_rejected() {
    let r = validate_edit(&edit(None, None, Some(vec![])));
    assert!(matches!(r, Err(MemberError::RolesRequired)));
    assert_eq!(
        EditMemberOutcome::Rejected(MemberError::RolesRequired).error_code(),
        Some("ADMIN_MEMBER_ROLES_REQUIRED")
    );
}

#[test]
fn issue_validation_order_is_roles_then_phone_then_address() {
    // Everything wrong at once: the empty role set is reported first.
    assert!(matches!(validate_issue(&input("M", "bad", " ", vec![])), Err(MemberError::RolesRequired)));
    // Then the phone, before the address.
    assert!(matches!(
        validate_issue(&input("M", "bad", " ", vec![IssuableRole::Driver])),
        Err(MemberError::PhoneInvalid)
    ));
}

#[test]
fn valid_issue_yields_the_canonical_phone() {
    let p = validate_issue(&input("Maria", " +1 (555) 123-0001 ", "12 Olive St", vec![IssuableRole::Rider]))
        .expect("valid");
    assert_eq!(p.expose_secret(), "+15551230001");
}

#[test]
fn member_service_edit_role_only_needs_no_group_key() {
    let plan = validate_edit(&edit(None, None, Some(vec![IssuableRole::Driver]))).expect("valid");
    assert!(!plan.needs_key);
    assert!(plan.normalized_phone.is_none());
    let plan = validate_edit(&edit(Some("+1 555 123 0009"), None, None)).expect("valid");
    assert!(plan.needs_key);
    assert_eq!(plan.normalized_phone.unwrap().expose_secret(), "+15551230009");
}

#[test]
fn edit_rejects_a_changed_invalid_phone_or_blank_address() {
    assert!(matches!(validate_edit(&edit(Some("12345"), None, None)), Err(MemberError::PhoneInvalid)));
    assert!(matches!(validate_edit(&edit(None, Some("\t "), None)), Err(MemberError::AddressInvalid)));
}

#[test]
fn member_service_stale_edit_rejected() {
    let stale = edit_outcome(EditApplied::Stale);
    assert_eq!(stale, EditMemberOutcome::Stale);
    assert_eq!(stale.error_code(), Some("ADMIN_MEMBER_EDIT_STALE"));
    assert_eq!(edit_outcome(EditApplied::Updated), EditMemberOutcome::Updated);
    assert_eq!(EditMemberOutcome::Updated.error_code(), None);
}

#[test]
fn edit_write_carries_only_the_changed_fields() {
    let w = edit_write(None, Some((PhoneLookupHash(vec![1, 2]), vec![3])), None, Some(vec![IssuableRole::Rider, IssuableRole::Driver]));
    assert!(w.name_encrypted.is_none());
    assert!(w.address_encrypted.is_none());
    assert!(w.phone_lookup == Some(PhoneLookupHash(vec![1, 2])));
    assert_eq!(w.phone_encrypted, Some(vec![3]));
    assert_eq!(w.roles, Some(vec![Role::Rider, Role::Driver]));
    let w = edit_write(Some(vec![9]), None, None, None);
    assert_eq!(w.name_encrypted, Some(vec![9]));
    assert!(w.phone_lookup.is_none() && w.phone_encrypted.is_none() && w.roles.is_none());
}

#[test]
fn member_service_mints_one_live_onboarding_code() {
    let expires = code_expiry(UnixSeconds::new(NOW));
    assert_eq!(expires, UnixSeconds::new(NOW + ONBOARDING_CODE_TTL_SECS));
    assert_eq!(ONBOARDING_CODE_TTL_SECS, 72 * 60 * 60);
    let w = new_member_write(
        MemberId(1),
        &vec![IssuableRole::Rider, IssuableRole::Driver],
        PhoneLookupHash(vec![7]),
        vec![1],
        vec![2],
        vec![3],
        CodeHash(vec![4]),
        expires,
    );
    assert_eq!(w.created_by, MemberId(1));
    assert_eq!(w.roles, vec![Role::Rider, Role::Driver]);
    assert_eq!(w.name_encrypted, vec![2]);
    assert!(w.onboarding_code_hash == CodeHash(vec![4]));
    assert_eq!(w.code_expires_at, expires);
}

#[test]
fn member_service_issues_rider_and_driver() {
    let name = MemberName::new("Maria".to_string());
    let code = OnboardingCode::new("ONB-1".to_string());
    let out = issued(MemberId(5), &name, vec![Role::Rider, Role::Driver], code, UnixSeconds::new(9));
    assert_eq!(out.error_code(), None);
    match out {
        IssueMemberOutcome::Issued { member, onboarding_code, code_expires_at } => {
            assert_eq!(member.member_id, MemberId(5));
            assert_eq!(member.name, "Maria");
            assert_eq!(member.roles, vec![Role::Rider, Role::Driver]);
            assert_eq!(member.onboarding_status, OnboardingStatus::IssuedNotOnboarded);
            assert_eq!(onboarding_code.expose_secret(), "ONB-1");
            assert_eq!(code_expires_at, UnixSeconds::new(9));
        }
        _ => panic!("expected Issued"),
    }
}

#[test]
fn member_service_duplicate_phone_links_existing_and_audits() {
    let d = duplicate_disclosure("req-dup".to_string());
    assert_eq!(d.request_id, "req-dup");
    assert_eq!(d.fields, vec![AuditField::Name]);

    let row = StoredMemberSummary {
        member_id: MemberId(3),
        name_encrypted: vec![0xde, 0xad],
        roles: vec![Role::Driver],
        onboarding_status: OnboardingStatus::Onboarded,
    };
    let out = duplicate_found(row, Some(b"Daniel".to_vec()));
    assert_eq!(out.error_code(), Some("ADMIN_MEMBER_DUPLICATE_PHONE"));
    match out {
        IssueMemberOutcome::DuplicatePhone { existing } => {
            assert_eq!(existing.member_id, MemberId(3));
            assert_eq!(existing.name, "Daniel");
            assert_eq!(existing.roles, vec![Role::Driver]);
            assert_eq!(existing.onboarding_status, OnboardingStatus::Onboarded);
        }
        _ => panic!("expected DuplicatePhone"),
    }
    let row = StoredMemberSummary {
        member_id: MemberId(3),
        name_encrypted: vec![],
        roles: vec![Role::Driver],
        onboarding_status: OnboardingStatus::Onboarded,
    };
    let out = duplicate_found(row, None);
    assert_eq!(out.error_code(), Some("ADMIN_GROUP_KEY_MISSING"));
}

#[test]
fn member_list_decrypts_names_in_order_and_fails_closed() {
    let rows = || {
        vec![
            StoredMemberSummary { member_id: MemberId(1), name_encrypted: vec![1], roles: vec![Role::Rider], onboarding_status: OnboardingStatus::IssuedNotOnboarded },
            StoredMemberSummary { member_id: MemberId(2), name_encrypted: vec![2], roles: vec![Role::Driver], onboarding_status: OnboardingStatus::CodeExpiredOrLost },
        ]
    };
    let list = list_summaries(rows(), vec![Some(b"Ana".to_vec()), Some(b"Bo".to_vec())]).expect("all decrypt");
    assert_eq!(list.len(), 2);
    assert_eq!((list[0].member_id, list[0].name.as_str()), (MemberId(1), "Ana"));
    assert_eq!((list[1].member_id, list[1].name.as_str()), (MemberId(2), "Bo"));
    assert_eq!(list[1].onboarding_status, OnboardingStatus::CodeExpiredOrLost);

    match list_summaries(rows(), vec![Some(b"Ana".to_vec()), None]) {
        Err(e) => assert_eq!(e, MemberError::GroupKeyMissing),
        Ok(_) => panic!("an undecryptable name must fail closed"),
    }
    assert!(list_summaries(vec![], vec![]).unwrap().is_empty());
}

#[test]
fn member_service_issuance_fails_closed_without_group_key() {
    let none: Option<Result<u8, ()>> = None;
    assert_eq!(member_group_key(load_group_key(none)).unwrap_err(), MemberError::GroupKeyMissing);
    let corrupt: Option<Result<u8, ()>> = Some(Err(()));
    assert_eq!(member_group_key(load_group_key(corrupt)).unwrap_err(), MemberError::GroupKeyMissing);
    assert_eq!(member_group_key(load_group_key(Some(Ok::<u8, ()>(7)))).unwrap(), 7);
    assert_eq!(rejected(MemberError::GroupKeyMissing).error_code(), Some("ADMIN_GROUP_KEY_MISSING"));
}

#[test]
fn member_detail_read_fails_closed_without_group_key() {
    match detail_begin(Err::<u8, GroupKeyMissing>(GroupKeyMissing), MemberId(2), MemberId(1), "r".to_string(), UnixSeconds::new(NOW)) {
        DetailStep::Respond(r) => assert_eq!(r.error_code(), Some("ADMIN_GROUP_KEY_MISSING")),
        DetailStep::ReadAudited { .. } => panic!("no key must not read"),
    }
}

fn stored() -> StoredMemberPii {
    StoredMemberPii {
        member_id: MemberId(1),
        name_encrypted: vec![1],
        phone_encrypted: vec![2],
        address_encrypted: vec![3],
        roles: vec![Role::Rider],
        onboarding_status: OnboardingStatus::Onboarded,
        updated_at: UnixSeconds::new(77),
    }
}

#[test]
fn audit_entry_carries_field_names_ts_admin_member_request() {
    let ticket = match detail_begin(Ok::<u8, GroupKeyMissing>(0), MemberId(2), MemberId(1), "req-7".to_string(), UnixSeconds::new(NOW)) {
        DetailStep::ReadAudited { key, ticket } => {
            assert_eq!(key, 0);
            ticket
        }
        DetailStep::Respond(_) => panic!("a usable key reads"),
    };
    let audit = ticket.audit().clone();
    assert_eq!(audit.timestamp, UnixSeconds::new(NOW));
    assert_eq!(audit.admin_id, MemberId(2));
    assert_eq!(audit.member_id, MemberId(1));
    assert_eq!(audit.fields, vec![AuditField::Name, AuditField::Phone, AuditField::Address]);
    assert_eq!(audit.request_id, "req-7");

    let read = detail_read(ticket, Some(stored()), Some((b"Maria".to_vec(), b"+15551230001".to_vec(), b"12 Olive St".to_vec())));
    assert_eq!(read.error_code(), None);
    match read {
        DetailRead::Detail(d) => {
            assert_eq!(d.audit(), &audit);
            let v = d.payload();
            assert_eq!(v.get_member_id(), MemberId(1));
            assert_eq!(v.get_name(), "Maria");
            assert_eq!(v.get_phone(), "+15551230001");
            assert_eq!(v.get_address(), "12 Olive St");
            assert_eq!(v.get_roles(), &vec![Role::Rider]);
            assert_eq!(v.get_onboarding_status(), OnboardingStatus::Onboarded);
            assert_eq!(v.get_updated_at(), UnixSeconds::new(77));
        }
        _ => panic!("expected Detail"),
    }
}

#[test]
fn member_detail_read_not_found_writes_no_audit() {
    let ticket = || match detail_begin(Ok::<u8, GroupKeyMissing>(0), MemberId(2), MemberId(9), "r".to_string(), UnixSeconds::new(NOW)) {
        DetailStep::ReadAudited { ticket, .. } => ticket,
        DetailStep::Respond(_) => panic!(),
    };
    assert!(matches!(detail_read(ticket(), None, None), DetailRead::NotFound));
    assert_eq!(detail_read(ticket(), None, None).error_code(), None);
    assert!(matches!(detail_read(ticket(), Some(stored()), None), DetailRead::GroupKeyMissing));
}

#[test]
fn member_service_regenerate_supersedes_decision() {
    let expires = code_expiry(UnixSeconds::new(NOW));
    match regenerate_outcome(true, OnboardingCode::new("ONB-2".to_string()), expires) {
        RegenerateOutcome::Regenerated { onboarding_code, code_expires_at } => {
            assert_eq!(onboarding_code.expose_secret(), "ONB-2");
            assert_eq!(code_expires_at, expires);
        }
        RegenerateOutcome::NotFound => panic!("member existed"),
    }
    assert!(matches!(
        regenerate_outcome(false, OnboardingCode::new("x".to_string()), expires),
        RegenerateOutcome::NotFound
    ));
}

#[test]
fn audit_field_as_str_casing() {
    assert_eq!(AuditField::Name.as_str(), "name");
    assert_eq!(AuditField::Phone.as_str(), "phone");
    assert_eq!(AuditField::Address.as_str(), "address");
}

#[test]
fn member_error_codes_are_the_stable_literals() {
    assert_eq!(MemberError::PhoneInvalid.error_code(), "ADMIN_MEMBER_PHONE_INVALID");
    assert_eq!(MemberError::AddressInvalid.error_code(), "ADMIN_MEMBER_ADDRESS_INVALID");
    assert_eq!(MemberError::RolesRequired.error_code(), "ADMIN_MEMBER_ROLES_REQUIRED");
    assert_eq!(MemberError::GroupKeyMissing.error_code(), "ADMIN_GROUP_KEY_MISSING");
    assert_eq!(EditMemberOutcome::Rejected(MemberError::PhoneInvalid).error_code(), Some("ADMIN_MEMBER_PHONE_INVALID"));
    assert_eq!(GroupKeyMissing.error_code(), "ADMIN_GROUP_KEY_MISSING");
}

#[test]
fn decode_field_replaces_invalid_utf8() {
    assert_eq!(decode_field(b"Jos\xc3\xa9"), "Jos\u{e9}");
    assert_eq!(decode_field(&[0x41, 0xff, 0x42]), "A\u{fffd}B");
    assert_eq!(decode_field(&[]), "");
}
