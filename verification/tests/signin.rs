//! Sign-in: the version handshake, below-minimum degradation with its admin alert, and the
//! no-existence-leak response shape.

use boundless_server_core::{
    normalize_phone, AdminAlert, AppVersion, AuthConfig, AuthService, ClientVersion,
    ManifestPointer, MemberId, MemberRecord, Platform, Role, SignInRequest, SignInResponse,
    SignInResult, UnixSeconds, VersionRequirement,
};

fn service() -> AuthService {
    AuthService::new(AuthConfig::new(
        VersionRequirement::new(AppVersion::new(1, 0, 0), AppVersion::new(1, 2, 0)),
        ManifestPointer::new("manifest:v1:index", "manifest:v1:"),
    ))
}

fn ios_current() -> ClientVersion {
    ClientVersion { platform: Platform::Ios, app_version: AppVersion::new(1, 2, 0) }
}

fn ios_below_min() -> ClientVersion {
    ClientVersion { platform: Platform::Ios, app_version: AppVersion::new(0, 9, 0) }
}

fn signin_req(phone: &str, reported: ClientVersion) -> SignInRequest {
    SignInRequest { phone: normalize_phone(phone).expect("valid E.164"), reported }
}

/// The phone-hash lookup of the test group: one Rider on `+15550000001`.
fn lookup(phone: &str) -> Option<MemberRecord> {
    if phone == "+15550000001" {
        Some(MemberRecord { member_id: MemberId(1), roles: vec![Role::Rider] })
    } else {
        None
    }
}

fn sign_in(svc: &mut AuthService, phone: &str, reported: ClientVersion, alerts: &mut Vec<AdminAlert>) -> SignInResponse {
    let req = signin_req(phone, reported);
    let member = lookup(req.phone.expose_secret());
    let (resp, alert) = svc.sign_in(&req, &member, UnixSeconds::new(1_000));
    alerts.extend(alert);
    resp
}

#[test]
fn ac7_signin_response_carries_min_and_recommended_version() {
    let mut svc = service();
    let mut alerts = Vec::new();
    let resp = sign_in(&mut svc, "+15550000001", ios_current(), &mut alerts);

    assert_eq!(resp.version.min, AppVersion::new(1, 0, 0));
    assert_eq!(resp.version.recommended, AppVersion::new(1, 2, 0));
    assert_eq!(resp.result, SignInResult::MemberMatched);
    assert_eq!(resp.error_code(), None);
}

#[test]
fn ac8_below_min_takes_precedence_and_alerts_once() {
    let mut svc = service();
    let mut alerts = Vec::new();
    let resp = sign_in(&mut svc, "+15550000001", ios_below_min(), &mut alerts);

    assert_eq!(resp.result, SignInResult::BelowMinVersion);
    assert_eq!(resp.error_code(), Some("AUTH_BELOW_MIN_VERSION"));
    assert_eq!(alerts.len(), 1);
    assert_eq!(
        alerts[0],
        AdminAlert::BelowMinVersion { member: MemberId(1), reported_version: AppVersion::new(0, 9, 0) }
    );
}

#[test]
fn signin_no_existence_leak_same_shape_matched_vs_unmatched() {
    let mut svc = service();
    let mut alerts = Vec::new();
    let matched = sign_in(&mut svc, "+15550000001", ios_current(), &mut alerts);
    let unmatched = sign_in(&mut svc, "+15559999999", ios_current(), &mut alerts);

    assert_eq!(matched.version, unmatched.version);
    assert_eq!(matched.manifest_pointer, unmatched.manifest_pointer);
    assert_eq!(matched.result, SignInResult::MemberMatched);
    assert_eq!(unmatched.result, SignInResult::PhoneNotOnFile);
    assert!(alerts.is_empty());
}

#[test]
fn signin_below_min_collapses_match_and_is_identical() {
    let mut svc = service();
    let mut alerts = Vec::new();
    let matched = sign_in(&mut svc, "+15550000001", ios_below_min(), &mut alerts);
    let unmatched = sign_in(&mut svc, "+15559999999", ios_below_min(), &mut alerts);

    assert_eq!(matched.result, SignInResult::BelowMinVersion);
    assert_eq!(matched, unmatched);
    assert_eq!(alerts.len(), 1);
}

#[test]
fn phone_not_on_file_has_its_code_and_carries_the_manifest_pointer() {
    let mut svc = service();
    let mut alerts = Vec::new();
    let resp = sign_in(&mut svc, "+15559999999", ios_current(), &mut alerts);
    assert_eq!(resp.error_code(), Some("AUTH_PHONE_NOT_ON_FILE"));
    assert_eq!(resp.manifest_pointer, ManifestPointer::new("manifest:v1:index", "manifest:v1:"));
}

#[test]
fn version_exactly_at_the_minimum_is_not_below_it() {
    let mut svc = service();
    let mut alerts = Vec::new();
    let at_min = ClientVersion { platform: Platform::Android, app_version: AppVersion::new(1, 0, 0) };
    let resp = sign_in(&mut svc, "+15550000001", at_min, &mut alerts);
    assert_eq!(resp.result, SignInResult::MemberMatched);
    let just_below = ClientVersion { platform: Platform::Android, app_version: AppVersion::new(0, 99, 99) };
    let resp = sign_in(&mut svc, "+15550000001", just_below, &mut alerts);
    assert_eq!(resp.result, SignInResult::BelowMinVersion);
}
