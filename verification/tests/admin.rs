//! Developer Admin provisioning: only the Developer may create an Admin, and the invitation it
//! mints carries a server-time TTL.

use boundless_server_core::{
    admin::invite_expires_at, authorize_developer, create_admin, reissue_admin_invite,
    AdminInvitationToken, DevCaller, MemberId, UnixSeconds, INVITE_TTL_SECS,
};

#[test]
fn ac1_admin_creation_rejects_unauth_and_admin() {
    for caller in [DevCaller::Unauthenticated, DevCaller::Member, DevCaller::Admin] {
        let err = authorize_developer(caller)
            .expect_err("a non-Developer must be refused at the Admin-creation endpoint");
        assert_eq!(err.error_code(), "DEV_ADMIN_CREATE_FORBIDDEN");
    }
    assert!(authorize_developer(DevCaller::Developer).is_ok());
}

#[test]
fn invitation_expires_a_ttl_after_server_now() {
    let dev = authorize_developer(DevCaller::Developer).unwrap();
    assert_eq!(invite_expires_at(&dev, UnixSeconds::new(1_000)), UnixSeconds::new(1_000 + INVITE_TTL_SECS));
    assert_eq!(INVITE_TTL_SECS, 72 * 60 * 60);
    // Saturates rather than overflowing.
    assert_eq!(invite_expires_at(&dev, UnixSeconds::new(i64::MAX - 5)), UnixSeconds::new(i64::MAX));
}

#[test]
fn create_admin_carries_the_id_token_and_expiry() {
    let dev = authorize_developer(DevCaller::Developer).unwrap();
    let expires = invite_expires_at(&dev, UnixSeconds::new(1_000));
    let inv = create_admin(&dev, MemberId(9), AdminInvitationToken::new("tok".to_string()), expires);
    assert_eq!(inv.admin_id, MemberId(9));
    assert_eq!(inv.token.expose_secret(), "tok");
    assert_eq!(inv.expires_at, expires);
}

#[test]
fn reissue_unknown_admin_is_a_noop() {
    let dev = authorize_developer(DevCaller::Developer).unwrap();
    let none = reissue_admin_invite(&dev, MemberId(404), AdminInvitationToken::new("t".to_string()), UnixSeconds::new(5), false);
    assert!(none.is_none());
    let some = reissue_admin_invite(&dev, MemberId(1), AdminInvitationToken::new("t2".to_string()), UnixSeconds::new(5), true)
        .expect("a known admin is re-invited");
    assert_eq!(some.admin_id, MemberId(1));
    assert_eq!(some.token.expose_secret(), "t2");
}
