use ig_client::auth::{
    classify_ws_auth, login_request_body, process_login_response, switch_account_step,
    AuthSessionManager, LoginReply, OauthToken, RefreshAction, SessionBody, SessionToken,
    SwitchReply, SwitchStep, WsAuthStep,
};
use ig_client::error::AuthError;
use ig_client::models::{AccountSwitchResponse, AuthVersion};

fn v3_body() -> SessionBody {
    SessionBody {
        account_id: "A1".to_string(),
        client_id: Some("C1".to_string()),
        lightstreamer_endpoint: Some("https://x".to_string()),
        oauth_token: Some(OauthToken {
            access_token: "t".to_string(),
            refresh_token: "r".to_string(),
            scope: "profile".to_string(),
            token_type: "Bearer".to_string(),
            expires_in: "60".to_string(),
        }),
        timezone_offset: Some(1),
    }
}

fn legacy_reply(status: u16) -> LoginReply {
    LoginReply {
        status,
        cst: Some("cst-token".to_string()),
        security_token: Some("xst-token".to_string()),
        body: Some(SessionBody {
            account_id: "ACC".to_string(),
            client_id: None,
            lightstreamer_endpoint: None,
            oauth_token: None,
            timezone_offset: None,
        }),
    }
}

#[test]
fn login_v3_scenario_yields_bearer_headers() {
    let reply = LoginReply { status: 200, cst: None, security_token: None, body: Some(v3_body()) };
    let mut mgr = AuthSessionManager::new(AuthVersion::V3, 600);
    mgr.apply_login(AuthVersion::V3, reply, 1_000).unwrap();

    let headers = mgr.auth_headers();
    assert_eq!(headers.len(), 2);
    assert_eq!(headers.get("Authorization"), Some("Bearer t".to_string()));
    assert_eq!(headers.get("IG-ACCOUNT-ID"), Some("A1".to_string()));

    // The server declared 60 seconds, so expiry is exactly then.
    let session = mgr.session.as_ref().unwrap();
    assert_eq!(session.expires_at, 1_060);
}

#[test]
fn login_headers_exact_for_each_version() {
    for version in [AuthVersion::V1, AuthVersion::V2] {
        let mut mgr = AuthSessionManager::new(version, 600);
        mgr.apply_login(version, legacy_reply(200), 0).unwrap();
        let headers = mgr.auth_headers();
        assert_eq!(headers.len(), 2);
        assert_eq!(headers.get("CST"), Some("cst-token".to_string()));
        assert_eq!(headers.get("X-SECURITY-TOKEN"), Some("xst-token".to_string()));
        assert_eq!(headers.get("Authorization"), None);
    }
    let mut mgr = AuthSessionManager::new(AuthVersion::V3, 600);
    let reply = LoginReply { status: 200, cst: None, security_token: None, body: Some(v3_body()) };
    mgr.apply_login(AuthVersion::V3, reply, 0).unwrap();
    let headers = mgr.auth_headers();
    assert_eq!(headers.len(), 2);
    assert_eq!(headers.get("CST"), None);
    assert_eq!(headers.get("X-SECURITY-TOKEN"), None);
}

#[test]
fn status_401_is_always_bad_credentials() {
    for version in [AuthVersion::V1, AuthVersion::V2, AuthVersion::V3] {
        let reply = legacy_reply(401);
        let out = process_login_response(version, reply, 0, 600);
        assert!(matches!(out, Err(AuthError::BadCredentials)));
    }
    // Even a bare 401 with nothing else is bad credentials, not Unexpected.
    let bare = LoginReply { status: 401, cst: None, security_token: None, body: None };
    assert!(matches!(
        process_login_response(AuthVersion::V3, bare, 0, 600),
        Err(AuthError::BadCredentials)
    ));
}

#[test]
fn missing_legacy_header_is_protocol_violation() {
    let mut reply = legacy_reply(200);
    reply.security_token = None;
    assert!(matches!(
        process_login_response(AuthVersion::V1, reply, 0, 600),
        Err(AuthError::Unexpected(200))
    ));
    let mut reply = legacy_reply(200);
    reply.cst = None;
    assert!(matches!(
        process_login_response(AuthVersion::V2, reply, 0, 600),
        Err(AuthError::Unexpected(200))
    ));
}

#[test]
fn unexpected_status_is_reported_with_its_code() {
    let reply = legacy_reply(500);
    assert!(matches!(
        process_login_response(AuthVersion::V2, reply, 0, 600),
        Err(AuthError::Unexpected(500))
    ));
}

#[test]
fn v3_without_oauth_token_is_not_fatal_but_not_ready() {
    let mut body = v3_body();
    body.oauth_token = None;
    let reply = LoginReply { status: 200, cst: None, security_token: None, body: Some(body) };
    let mut mgr = AuthSessionManager::new(AuthVersion::V3, 600);
    mgr.apply_login(AuthVersion::V3, reply, 0).unwrap();
    // No token object: header derivation yields the empty, "not ready" set.
    assert!(mgr.auth_headers().is_empty());
}

#[test]
fn ensure_authenticated_calls_exactly_once_per_lifetime() {
    let mut mgr = AuthSessionManager::new(AuthVersion::V2, 600);

    // Unauthenticated: the first ensure demands one login.
    assert_eq!(mgr.ensure_action(1_000), Some(AuthVersion::V2));
    mgr.apply_login(AuthVersion::V2, legacy_reply(200), 1_000).unwrap();

    // Within the lifetime: two ensure calls, no network call.
    assert_eq!(mgr.ensure_action(1_100), None);
    assert_eq!(mgr.ensure_action(1_599), None);

    // At the expiry instant: exactly one more login is demanded.
    assert_eq!(mgr.ensure_action(1_600), Some(AuthVersion::V2));
}

#[test]
fn switch_account_retries_exactly_once_on_transient_401() {
    let transient = SwitchReply {
        status: 401,
        error_code: Some("account-token-invalid".to_string()),
        body: None,
    };
    let success = SwitchReply {
        status: 200,
        error_code: None,
        body: Some(AccountSwitchResponse {
            dealing_enabled: true,
            has_active_demo_accounts: false,
            has_active_live_accounts: true,
            trailing_stops_enabled: false,
        }),
    };

    // First reply: the known transient code demands one re-auth and retry.
    assert_eq!(switch_account_step(&transient, false), SwitchStep::ReauthThenRetry);
    // Second reply: the retry succeeds and the caller sees success.
    match switch_account_step(&success, true) {
        SwitchStep::Done(b) => assert!(b.dealing_enabled),
        other => panic!("expected Done, got {:?}", other),
    }
    // A transient code on the retry is surfaced, not retried again.
    assert!(matches!(switch_account_step(&transient, true), SwitchStep::Failed(_)));
}

#[test]
fn switch_account_other_401_is_not_retried() {
    let other = SwitchReply {
        status: 401,
        error_code: Some("unrelated-code".to_string()),
        body: None,
    };
    assert!(matches!(switch_account_step(&other, false), SwitchStep::Failed(_)));
}

#[test]
fn logout_clears_state_unconditionally() {
    let mut mgr = AuthSessionManager::new(AuthVersion::V1, 600);
    mgr.apply_login(AuthVersion::V1, legacy_reply(200), 0).unwrap();
    assert!(mgr.is_authenticated(10));
    mgr.logout_apply();
    assert!(!mgr.is_authenticated(10));
    assert!(mgr.auth_headers().is_empty());
}

#[test]
fn refresh_uses_token_only_when_supported() {
    // Legacy sessions fall back to a full authenticate.
    let mut mgr = AuthSessionManager::new(AuthVersion::V2, 600);
    mgr.apply_login(AuthVersion::V2, legacy_reply(200), 0).unwrap();
    assert!(matches!(mgr.refresh_action(), RefreshAction::FullAuthenticate(AuthVersion::V2)));

    // A version-3 session with a refresh token exchanges it.
    let mut mgr = AuthSessionManager::new(AuthVersion::V3, 600);
    let reply = LoginReply { status: 200, cst: None, security_token: None, body: Some(v3_body()) };
    mgr.apply_login(AuthVersion::V3, reply, 0).unwrap();
    match mgr.refresh_action() {
        RefreshAction::UseRefreshToken(tok) => assert_eq!(tok, "r"),
        other => panic!("expected UseRefreshToken, got {:?}", other),
    }
}

#[test]
fn refresh_failure_keeps_the_valid_session() {
    let mut mgr = AuthSessionManager::new(AuthVersion::V3, 600);
    let reply = LoginReply { status: 200, cst: None, security_token: None, body: Some(v3_body()) };
    mgr.apply_login(AuthVersion::V3, reply, 0).unwrap();
    let before = mgr.auth_headers();

    // A rejected exchange must not invalidate the current access token.
    assert!(mgr.apply_refresh(500, None, 30).is_err());
    let after = mgr.auth_headers();
    assert_eq!(before.get("Authorization"), after.get("Authorization"));

    // A confirmed exchange replaces the token and the expiry.
    let new_token = OauthToken {
        access_token: "t2".to_string(),
        refresh_token: "r2".to_string(),
        scope: "profile".to_string(),
        token_type: "Bearer".to_string(),
        expires_in: "120".to_string(),
    };
    mgr.apply_refresh(200, Some(new_token), 30).unwrap();
    assert_eq!(mgr.auth_headers().get("Authorization"), Some("Bearer t2".to_string()));
    assert_eq!(mgr.session.as_ref().unwrap().expires_at, 150);
    match &mgr.session.as_ref().unwrap().token {
        Some(SessionToken::OAuth { expires_in_seconds, .. }) => {
            assert_eq!(*expires_in_seconds, 120)
        },
        other => panic!("expected an OAuth token, got {:?}", other),
    }
}

#[test]
fn ws_auth_classification() {
    assert!(matches!(
        classify_ws_auth("authenticate", "success".to_string(), Some("sid".to_string())),
        WsAuthStep::Success(id) if id == "sid"
    ));
    assert!(matches!(
        classify_ws_auth("authenticate", "success".to_string(), None),
        WsAuthStep::MissingSessionId
    ));
    assert!(matches!(
        classify_ws_auth("authenticate", "denied".to_string(), Some("sid".to_string())),
        WsAuthStep::Failure(s) if s == "denied"
    ));
    assert!(matches!(
        classify_ws_auth("heartbeat", "success".to_string(), None),
        WsAuthStep::Ignore
    ));
}

#[test]
fn login_request_body_is_version_specific() {
    assert_eq!(
        login_request_body(AuthVersion::V1, "user", "pw"),
        "{\"identifier\":\"user\",\"password\":\"pw\",\"encryptedPassword\":false}"
    );
    assert_eq!(
        login_request_body(AuthVersion::V2, "user", "pw"),
        "{\"identifier\":\"user\",\"password\":\"pw\",\"encryptedPassword\":false}"
    );
    assert_eq!(
        login_request_body(AuthVersion::V3, "user", "pw"),
        "{\"identifier\":\"user\",\"password\":\"pw\"}"
    );
}

#[test]
fn error_messages_match_display_forms() {
    assert_eq!(AuthError::BadCredentials.message(), "bad credentials");
    assert_eq!(AuthError::Unexpected(503).message(), "unexpected http status: 503");
    assert_eq!(
        AuthError::Network("timed out".to_string()).message(),
        "network error: timed out"
    );
}
