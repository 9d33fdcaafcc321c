//! The step decisions of device bind, refresh and recovery re-bind, driven the way the caller
//! drives them: each step is handed what the previous effect returned.

use boundless_server_core::bind::{BindCodeStep, BindStep, BindVerdictStep};
use boundless_server_core::recovery::{RecoveryCodeStep, RecoveryStep, RecoveryVerdictStep};
use boundless_server_core::refresh::{RefreshStep, RefreshVerdictStep};
use boundless_server_core::{
    normalize_phone, AdminAlert, AppVersion, AuthConfig, AuthService, BindOutcome, BindRequest,
    ClientVersion, CodeHash, DeviceToken, FamilyInfo, ManifestPointer, MemberId, MemberRecord,
    OnboardingCode, OnboardingCodeRow, OnboardingCodeVerdict, Platform, RecoveryCode,
    RecoveryCodeRow, RecoveryCodeVerdict, RecoveryOutcome, RecoveryRequest, RefreshClassification,
    RefreshOutcome, RefreshPresentation, RefreshRequest, RefreshToken, RefreshVerdict, Role,
    SessionFamilyId, SessionFamilyStatus, SourceKey, UnixSeconds, VersionRequirement,
    ACCESS_TTL_SECS,
};

const NOW: i64 = 1_000;

fn service() -> AuthService {
    AuthService::new(AuthConfig::new(
        VersionRequirement::new(AppVersion::new(1, 0, 0), AppVersion::new(1, 2, 0)),
        ManifestPointer::new("manifest:v1:index", "manifest:v1:"),
    ))
}

fn ios_current() -> ClientVersion {
    ClientVersion { platform: Platform::Ios, app_version: AppVersion::new(1, 2, 0) }
}

fn ios_below_min() -> ClientVersion {
    ClientVersion { platform: Platform::Ios, app_version: AppVersion::new(0, 9, 0) }
}

fn rider(n: u128) -> MemberRecord {
    MemberRecord { member_id: MemberId(n), roles: vec![Role::Rider] }
}

fn driver(n: u128) -> MemberRecord {
    MemberRecord { member_id: MemberId(n), roles: vec![Role::Rider, Role::Driver] }
}

fn bind_req(reported: ClientVersion) -> BindRequest {
    BindRequest {
        phone: normalize_phone("+15550000001").unwrap(),
        code: OnboardingCode::new("ONB-GOOD".to_string()),
        reported,
        device_token: DeviceToken::new("dev-token".to_string()),
    }
}

fn code_row() -> OnboardingCodeRow {
    OnboardingCodeRow { code_hash: CodeHash(vec![1]), expires_at: UnixSeconds::new(1_000_000), max_attempts: 5 }
}

#[test]
fn ac17_unknown_member_is_invalid_no_existence_leak() {
    let mut svc = service();
    let unknown = match svc.bind_begin(&bind_req(ios_current()), &None, UnixSeconds::new(NOW)) {
        BindStep::Respond(resp, alert) => {
            assert!(alert.is_none());
            resp
        }
        BindStep::LoadCode { .. } => panic!("an unknown phone loads no code"),
    };
    assert!(matches!(unknown.outcome, BindOutcome::Failed(OnboardingCodeVerdict::Invalid)));

    // A known member with a wrong code answers the same way.
    let member = Some(rider(1));
    let (m, prior) = match svc.bind_begin(&bind_req(ios_current()), &member, UnixSeconds::new(NOW)) {
        BindStep::LoadCode { member, prior_attempts } => (member, prior_attempts),
        BindStep::Respond(..) => panic!("a known member's code is loaded"),
    };
    assert_eq!((m, prior), (MemberId(1), 0));
    match svc.bind_on_code(Some(code_row()), prior) {
        BindCodeStep::Evaluate(ch) => {
            assert_eq!(ch.recent_attempts, 0);
            assert_eq!(ch.max_attempts, 5);
            assert!(!ch.consumed && !ch.superseded);
        }
        BindCodeStep::Respond(_) => panic!("a live code is evaluated"),
    }
    let wrong = match svc.bind_on_verdict(m, OnboardingCodeVerdict::Invalid, UnixSeconds::new(NOW)) {
        BindVerdictStep::Respond(resp, alert) => {
            assert!(alert.is_none());
            resp
        }
        BindVerdictStep::Consume => panic!("a wrong code is not consumed"),
    };
    assert_eq!(unknown.error_code(), wrong.error_code());
    assert_eq!(unknown.version, wrong.version);
}

#[test]
fn bind_atomic_consume_no_double_bind() {
    let svc = service();
    assert!(svc.bind_on_consume(true).is_none());
    let lost = svc.bind_on_consume(false).expect("a lost consume race answers");
    assert!(matches!(lost.outcome, BindOutcome::Failed(OnboardingCodeVerdict::Consumed)));
    // No live code at all is also `Consumed`.
    match svc.bind_on_code(None, 0) {
        BindCodeStep::Respond(r) => assert!(matches!(r.outcome, BindOutcome::Failed(OnboardingCodeVerdict::Consumed))),
        BindCodeStep::Evaluate(_) => panic!(),
    }
}

#[test]
fn ac17_rate_limit_locks_and_alerts_after_max_attempts() {
    let mut svc = service();
    let m = MemberId(1);
    let mut alerts = Vec::new();
    for _ in 0..2 {
        match svc.bind_on_verdict(m, OnboardingCodeVerdict::RateLimited, UnixSeconds::new(NOW)) {
            BindVerdictStep::Respond(resp, alert) => {
                assert!(matches!(resp.outcome, BindOutcome::Failed(OnboardingCodeVerdict::RateLimited)));
                alerts.extend(alert);
            }
            BindVerdictStep::Consume => panic!(),
        }
    }
    assert_eq!(alerts, vec![AdminAlert::OnboardingCodeLocked { member: m }]);
}

#[test]
fn bind_below_min_degrades_without_binding() {
    let mut svc = service();
    let member = Some(rider(1));
    match svc.bind_begin(&bind_req(ios_below_min()), &member, UnixSeconds::new(NOW)) {
        BindStep::Respond(resp, alert) => {
            assert!(matches!(resp.outcome, BindOutcome::BelowMinVersion));
            assert_eq!(resp.error_code(), Some("AUTH_BELOW_MIN_VERSION"));
            assert!(alert.is_some());
        }
        BindStep::LoadCode { .. } => panic!("below-minimum never reaches the code"),
    }
    // The attempt window was not charged.
    assert_eq!(svc.hub.register_code_attempt(MemberId(1), UnixSeconds::new(NOW)), 0);
}

#[test]
fn bind_below_min_unknown_phone_is_identical_and_silent() {
    let mut svc = service();
    let known = match svc.bind_begin(&bind_req(ios_below_min()), &Some(rider(1)), UnixSeconds::new(NOW)) {
        BindStep::Respond(resp, _) => resp,
        BindStep::LoadCode { .. } => panic!(),
    };
    let unknown = match svc.bind_begin(&bind_req(ios_below_min()), &None, UnixSeconds::new(NOW)) {
        BindStep::Respond(resp, alert) => {
            assert!(alert.is_none(), "no member, no alert");
            resp
        }
        BindStep::LoadCode { .. } => panic!(),
    };
    assert_eq!(known.error_code(), unknown.error_code());
    assert_eq!(known.version, unknown.version);
}

#[test]
fn ac14_notification_decline_records_flag_and_advances() {
    let mut svc = service();
    let m = MemberId(4);
    let (flag, alert) = svc.record_notification_decision(m, false, UnixSeconds::new(NOW));
    assert!(flag);
    assert_eq!(alert, Some(AdminAlert::NotificationsNotEnabled { member: m }));
    let (flag, alert) = svc.record_notification_decision(m, false, UnixSeconds::new(NOW));
    assert!(flag);
    assert!(alert.is_none(), "once a day");
    let (flag, alert) = svc.record_notification_decision(m, true, UnixSeconds::new(NOW));
    assert!(!flag);
    assert!(alert.is_none());
}

fn refresh_req(reported: ClientVersion) -> RefreshRequest {
    RefreshRequest { presented: RefreshToken::new("R".to_string()), reported, source: SourceKey(9) }
}

fn family(status: SessionFamilyStatus) -> FamilyInfo {
    FamilyInfo { id: SessionFamilyId(77), status, member: MemberId(1) }
}

#[test]
fn refresh_reject_shape_identical_for_unknown_revoked_and_replay() {
    let mut svc = service();
    let req = refresh_req(ios_current());
    let unknown = RefreshClassification { presentation: RefreshPresentation::Unknown, family: None };
    match svc.refresh_begin(&req, &unknown, UnixSeconds::new(NOW)) {
        RefreshStep::Evaluate { status, presentation } => {
            assert_eq!(status, SessionFamilyStatus::Revoked);
            assert_eq!(presentation, RefreshPresentation::Unknown);
        }
        RefreshStep::Respond(..) => panic!(),
    }
    let rejected = match svc.refresh_on_verdict(&req, &unknown, RefreshVerdict::Rejected, UnixSeconds::new(NOW)) {
        RefreshVerdictStep::Respond { response, revoke, alert } => {
            assert!(revoke.is_none() && alert.is_none());
            response
        }
        RefreshVerdictStep::Rotate { .. } => panic!(),
    };
    let replay_class = RefreshClassification {
        presentation: RefreshPresentation::Superseded,
        family: Some(family(SessionFamilyStatus::Active)),
    };
    let replay = match svc.refresh_on_verdict(&req, &replay_class, RefreshVerdict::ReplayDetectedKillFamily, UnixSeconds::new(NOW)) {
        RefreshVerdictStep::Respond { response, revoke, alert } => {
            assert_eq!(revoke, Some(SessionFamilyId(77)));
            assert_eq!(alert, Some(AdminAlert::SessionInvalidated { member: MemberId(1) }));
            response
        }
        RefreshVerdictStep::Rotate { .. } => panic!(),
    };
    assert!(matches!(rejected.outcome, RefreshOutcome::Invalidated));
    assert!(matches!(replay.outcome, RefreshOutcome::Invalidated));
    assert_eq!(rejected.version, replay.version);
    // The rejection was counted against the source.
    assert_eq!(svc.hub.note_refresh_rejection(SourceKey(9), UnixSeconds::new(NOW)), 2);
}

#[test]
fn ac18_rotate_current_credential() {
    let mut svc = service();
    let req = refresh_req(ios_current());
    let class = RefreshClassification { presentation: RefreshPresentation::Current, family: Some(family(SessionFamilyStatus::Active)) };
    match svc.refresh_on_verdict(&req, &class, RefreshVerdict::Rotate, UnixSeconds::new(NOW)) {
        RefreshVerdictStep::Rotate { family, access_expires_at } => {
            assert_eq!(family, SessionFamilyId(77));
            assert_eq!(access_expires_at, UnixSeconds::new(NOW + ACCESS_TTL_SECS));
        }
        RefreshVerdictStep::Respond { .. } => panic!(),
    }
}

#[test]
fn refresh_below_min_degrades_without_touching_session() {
    let mut svc = service();
    let req = refresh_req(ios_below_min());
    let class = RefreshClassification { presentation: RefreshPresentation::Superseded, family: Some(family(SessionFamilyStatus::Active)) };
    match svc.refresh_begin(&req, &class, UnixSeconds::new(NOW)) {
        RefreshStep::Respond(resp, alert) => {
            assert!(matches!(resp.outcome, RefreshOutcome::BelowMinVersion));
            assert!(resp.server_verdict.is_none());
            assert!(alert.is_some());
        }
        RefreshStep::Evaluate { .. } => panic!("below-minimum never runs the policy"),
    }
}

fn recovery_req(reported: ClientVersion) -> RecoveryRequest {
    RecoveryRequest {
        phone: normalize_phone("+15550000002").unwrap(),
        code: RecoveryCode::new("REC".to_string()),
        reported,
        device_token: DeviceToken::new("new-dev".to_string()),
    }
}

#[test]
fn ac19_rider_has_no_self_serve_recovery() {
    let mut svc = service();
    match svc.recovery_begin(&recovery_req(ios_current()), &Some(rider(2)), UnixSeconds::new(NOW)) {
        RecoveryStep::Respond(resp, alert) => {
            assert!(matches!(resp.outcome, RecoveryOutcome::Rejected(RecoveryCodeVerdict::NotAvailable)));
            assert_eq!(resp.error_code(), Some("AUTH_RECOVERY_NOT_AVAILABLE"));
            assert!(alert.is_none());
        }
        RecoveryStep::LoadCode { .. } => panic!("a Rider is refused before any code is loaded"),
    }
    match svc.recovery_begin(&recovery_req(ios_current()), &Some(driver(3)), UnixSeconds::new(NOW)) {
        RecoveryStep::LoadCode { member, role } => {
            assert_eq!(member, MemberId(3));
            assert_eq!(role, Role::Driver);
        }
        RecoveryStep::Respond(..) => panic!("a Driver's code is loaded"),
    }
}

#[test]
fn recovery_no_live_code_is_invalid() {
    let svc = service();
    match svc.recovery_on_code(None) {
        RecoveryCodeStep::Respond(r) => {
            assert!(matches!(r.outcome, RecoveryOutcome::Rejected(RecoveryCodeVerdict::Invalid)));
        }
        RecoveryCodeStep::Evaluate(_) => panic!(),
    }
    match svc.recovery_on_code(Some(RecoveryCodeRow { code_hash: CodeHash(vec![5]) })) {
        RecoveryCodeStep::Evaluate(ch) => assert!(!ch.consumed && !ch.superseded),
        RecoveryCodeStep::Respond(_) => panic!(),
    }
}

#[test]
fn ac19_reused_recovery_code_is_rejected() {
    let svc = service();
    assert!(matches!(svc.recovery_on_verdict(RecoveryCodeVerdict::Accepted), RecoveryVerdictStep::ConsumeAndRotate));
    let lost = svc.recovery_on_consume(false).expect("a used code answers");
    assert!(matches!(lost.outcome, RecoveryOutcome::Rejected(RecoveryCodeVerdict::Invalid)));
    assert!(svc.recovery_on_consume(true).is_none());
}

#[test]
fn recovery_below_min_degrades() {
    let mut svc = service();
    match svc.recovery_begin(&recovery_req(ios_below_min()), &Some(driver(3)), UnixSeconds::new(NOW)) {
        RecoveryStep::Respond(resp, _) => {
            assert!(matches!(resp.outcome, RecoveryOutcome::BelowMinVersion));
            assert_eq!(resp.error_code(), Some("AUTH_BELOW_MIN_VERSION"));
        }
        RecoveryStep::LoadCode { .. } => panic!(),
    }
}

/// Drive a whole refresh against a classified credential, with the rotation policy's verdict for
/// the status and presentation the first step hands over.
fn drive_refresh(
    svc: &mut AuthService,
    class: RefreshClassification,
    policy: fn(SessionFamilyStatus, RefreshPresentation) -> RefreshVerdict,
) -> (boundless_server_core::RefreshResponse, Option<SessionFamilyId>, Option<AdminAlert>) {
    let req = refresh_req(ios_current());
    let (status, presentation) = match svc.refresh_begin(&req, &class, UnixSeconds::new(NOW)) {
        RefreshStep::Evaluate { status, presentation } => (status, presentation),
        RefreshStep::Respond(..) => panic!("a current client runs the policy"),
    };
    match svc.refresh_on_verdict(&req, &class, policy(status, presentation), UnixSeconds::new(NOW)) {
        RefreshVerdictStep::Respond { response, revoke, alert } => (response, revoke, alert),
        RefreshVerdictStep::Rotate { .. } => panic!("not a rotation"),
    }
}

/// The rotation policy as the original tests exercise it: rotate the current credential of an
/// active family, kill an active family on a replay, reject everything else.
fn policy(status: SessionFamilyStatus, presentation: RefreshPresentation) -> RefreshVerdict {
    match (status, presentation) {
        (SessionFamilyStatus::Active, RefreshPresentation::Current) => RefreshVerdict::Rotate,
        (SessionFamilyStatus::Active, RefreshPresentation::Superseded) => RefreshVerdict::ReplayDetectedKillFamily,
        _ => RefreshVerdict::Rejected,
    }
}

#[test]
fn refresh_unknown_revoked_and_replay_answer_alike() {
    let mut svc = service();
    let (unknown, r1, a1) = drive_refresh(
        &mut svc,
        RefreshClassification { presentation: RefreshPresentation::Unknown, family: None },
        policy,
    );
    let (revoked, r2, a2) = drive_refresh(
        &mut svc,
        RefreshClassification { presentation: RefreshPresentation::Current, family: Some(family(SessionFamilyStatus::Revoked)) },
        policy,
    );
    let (replay, r3, a3) = drive_refresh(
        &mut svc,
        RefreshClassification { presentation: RefreshPresentation::Superseded, family: Some(family(SessionFamilyStatus::Active)) },
        policy,
    );
    for r in [&unknown, &revoked, &replay] {
        assert!(matches!(r.outcome, RefreshOutcome::Invalidated));
        assert_eq!(r.version, unknown.version);
    }
    assert_eq!(unknown.server_verdict, Some(RefreshVerdict::Rejected));
    assert_eq!(revoked.server_verdict, Some(RefreshVerdict::Rejected));
    assert_eq!(replay.server_verdict, Some(RefreshVerdict::ReplayDetectedKillFamily));
    assert!(r1.is_none() && a1.is_none() && r2.is_none() && a2.is_none());
    assert_eq!(r3, Some(SessionFamilyId(77)));
    assert!(a3.is_some());
    // Two rejections were counted against the source.
    assert_eq!(svc.hub.note_refresh_rejection(SourceKey(9), UnixSeconds::new(NOW)), 3);
}
