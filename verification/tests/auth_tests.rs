use codex::auth::AuthDotJson;
use codex::auth::AuthManager;
use codex::auth::AuthMode;
use codex::auth::AuthStore;
use codex::auth::CodexAuth;
use codex::auth::ForcedLoginMethod;
use codex::auth::IdTokenInfo;
use codex::auth::RefreshResponse;
use codex::auth::TokenData;
use codex::auth::enforce_login_restrictions;
use codex::auth::load_auth;
use codex::auth::load_auth_dot_json;
use codex::auth::login_with_api_key;
use codex::auth::logout;
use codex::auth::save_auth;
use codex::auth::token_data_stale;
use codex::auth::update_tokens;
use codex::error::CodexErr;

fn id_token(account: Option<&str>) -> IdTokenInfo {
    IdTokenInfo {
        email: Some("user@example.com".to_string()),
        chatgpt_plan_type: Some("pro".to_string()),
        chatgpt_account_id: account.map(|a| a.to_string()),
        raw_jwt: "header.payload.sig".to_string(),
    }
}

fn chatgpt_entry(account: Option<&str>) -> AuthDotJson {
    AuthDotJson {
        openai_api_key: None,
        tokens: Some(TokenData {
            id_token: id_token(account),
            access_token: "test-access-token".to_string(),
            refresh_token: "test-refresh-token".to_string(),
            account_id: None,
        }),
        last_refresh: Some(1_700_000_000),
    }
}

#[test]
fn missing_auth_json_returns_none() {
    let store = AuthStore::new(None);
    assert!(load_auth(&store, None, false).is_none());
    assert!(load_auth_dot_json(&store).is_none());
}

#[test]
fn logout_removes_auth_file() {
    let mut store = AuthStore::new(None);
    let entry = AuthDotJson {
        openai_api_key: Some("sk-test-key".to_string()),
        tokens: None,
        last_refresh: None,
    };
    save_auth(&mut store, &entry);
    assert!(load_auth_dot_json(&store).is_some());
    assert!(logout(&mut store));
    assert!(load_auth_dot_json(&store).is_none());
    assert!(!logout(&mut store));
}

#[test]
fn loads_api_key_from_auth_json() {
    let mut store = AuthStore::new(None);
    login_with_api_key(&mut store, "sk-test-key");
    let auth = load_auth(&store, None, false).expect("an entry is stored");
    assert_eq!(auth.mode, AuthMode::ApiKey);
    assert_eq!(auth.api_key.as_deref(), Some("sk-test-key"));
    assert!(auth.get_current_token_data().is_none());
}

#[test]
fn login_with_api_key_overwrites_existing_auth_json() {
    let mut store = AuthStore::new(Some(AuthDotJson {
        openai_api_key: Some("sk-old".to_string()),
        tokens: Some(TokenData {
            id_token: IdTokenInfo {
                email: None,
                chatgpt_plan_type: None,
                chatgpt_account_id: Some("stale-acc".to_string()),
                raw_jwt: "stale.header.payload".to_string(),
            },
            access_token: "stale-access".to_string(),
            refresh_token: "stale-refresh".to_string(),
            account_id: Some("stale-acc".to_string()),
        }),
        last_refresh: None,
    }));
    login_with_api_key(&mut store, "sk-new");
    let auth = load_auth_dot_json(&store).expect("auth.json should parse");
    assert_eq!(auth.openai_api_key.as_deref(), Some("sk-new"));
    assert!(auth.tokens.is_none(), "tokens should be cleared");
}

#[test]
fn refresh_without_id_token() {
    let mut store = AuthStore::new(Some(chatgpt_entry(None)));
    let updated = update_tokens(
        &mut store,
        RefreshResponse {
            id_token: None,
            access_token: Some("new-access-token".to_string()),
            refresh_token: Some("new-refresh-token".to_string()),
        },
        1_700_000_500,
    )
    .expect("update_tokens should succeed");
    let tokens = updated.tokens.expect("tokens should exist");
    assert_eq!(tokens.id_token.raw_jwt, "header.payload.sig");
    assert_eq!(tokens.access_token, "new-access-token");
    assert_eq!(tokens.refresh_token, "new-refresh-token");
    assert_eq!(updated.last_refresh, Some(1_700_000_500));
}

/// Refresh is atomic: the stored snapshot after a refresh carries the new
/// access and refresh token together, never a mix.
#[test]
fn refresh_replaces_token_pair_together() {
    let mut store = AuthStore::new(Some(chatgpt_entry(None)));
    update_tokens(
        &mut store,
        RefreshResponse {
            id_token: None,
            access_token: Some("A2".to_string()),
            refresh_token: Some("R2".to_string()),
        },
        2_000,
    )
    .expect("refresh should succeed");
    let snapshot = load_auth_dot_json(&store).unwrap().tokens.unwrap();
    assert_eq!(snapshot.access_token, "A2");
    assert_eq!(snapshot.refresh_token, "R2");
}

#[test]
fn update_tokens_fails_on_empty_store() {
    let mut store = AuthStore::new(None);
    let r = update_tokens(
        &mut store,
        RefreshResponse {
            id_token: None,
            access_token: None,
            refresh_token: None,
        },
        0,
    );
    assert!(matches!(r, Err(CodexErr::Auth { .. })));
}

#[test]
fn enforce_login_restrictions_logs_out_for_method_mismatch() {
    let mut store = AuthStore::new(None);
    login_with_api_key(&mut store, "sk-test");
    let err = enforce_login_restrictions(
        &mut store,
        Some(ForcedLoginMethod::Chatgpt),
        &None,
        None,
    )
    .expect_err("expected method mismatch to error");
    match err {
        CodexErr::Auth { message } => assert!(message.contains("ChatGPT login is required")),
        other => panic!("unexpected error: {other:?}"),
    }
    assert!(
        load_auth_dot_json(&store).is_none(),
        "auth.json should be removed on mismatch"
    );
}

#[test]
fn enforce_login_restrictions_logs_out_for_workspace_mismatch() {
    let mut store = AuthStore::new(Some(chatgpt_entry(Some("org_another_org"))));
    let err = enforce_login_restrictions(
        &mut store,
        None,
        &Some("org_mine".to_string()),
        None,
    )
    .expect_err("expected workspace mismatch to error");
    match err {
        CodexErr::Auth { message } => assert!(message.contains("workspace org_mine")),
        other => panic!("unexpected error: {other:?}"),
    }
    assert!(
        load_auth_dot_json(&store).is_none(),
        "auth.json should be removed on mismatch"
    );
}

#[test]
fn enforce_login_restrictions_allows_matching_workspace() {
    let mut store = AuthStore::new(Some(chatgpt_entry(Some("org_mine"))));
    enforce_login_restrictions(&mut store, None, &Some("org_mine".to_string()), None)
        .expect("matching workspace should succeed");
    assert!(
        load_auth_dot_json(&store).is_some(),
        "auth.json should remain when restrictions pass"
    );
}

#[test]
fn enforce_login_restrictions_allows_api_key_if_login_method_not_set_but_forced_chatgpt_workspace_id_is_set(
) {
    let mut store = AuthStore::new(None);
    login_with_api_key(&mut store, "sk-test");
    enforce_login_restrictions(&mut store, None, &Some("org_mine".to_string()), None)
        .expect("matching workspace should succeed");
    assert!(
        load_auth_dot_json(&store).is_some(),
        "auth.json should remain when restrictions pass"
    );
}

#[test]
fn enforce_login_restrictions_blocks_env_api_key_when_chatgpt_required() {
    let mut store = AuthStore::new(None);
    let env_key = "sk-env".to_string();
    let err = enforce_login_restrictions(
        &mut store,
        Some(ForcedLoginMethod::Chatgpt),
        &None,
        Some(&env_key),
    )
    .expect_err("environment API key should not satisfy forced ChatGPT login");
    match err {
        CodexErr::Auth { message } => assert!(
            message.contains("ChatGPT login is required, but an API key is currently being used.")
        ),
        other => panic!("unexpected error: {other:?}"),
    }
}

#[test]
fn auth_manager_reload_reports_mode_changes() {
    let mut store = AuthStore::new(None);
    login_with_api_key(&mut store, "sk-1");
    let mut manager = AuthManager::new(store, false, None);
    assert_eq!(manager.auth().unwrap().mode, AuthMode::ApiKey);
    // Same mode: no change reported.
    assert!(!manager.reload(None));
    // Logging out flips to unauthenticated.
    assert!(manager.logout(None));
    assert!(manager.auth().is_none());
}

#[test]
fn refresh_request_uses_current_refresh_token() {
    let store = AuthStore::new(Some(chatgpt_entry(None)));
    let auth = load_auth(&store, None, false).unwrap();
    let rq = auth.refresh_request().expect("tokens are present");
    assert_eq!(rq.grant_type, "refresh_token");
    assert_eq!(rq.refresh_token, "test-refresh-token");
    assert_eq!(rq.scope, "openid profile email");
}

#[test]
fn token_staleness_is_28_days() {
    let day = 86_400;
    assert!(!token_data_stale(100 * day, 100 * day + 28 * day));
    assert!(token_data_stale(100 * day, 100 * day + 28 * day + 1));
}

#[test]
fn get_token_per_mode() {
    let api = CodexAuth::from_api_key("sk-abc");
    assert_eq!(api.get_token().unwrap(), "sk-abc");
    let chat = load_auth(&AuthStore::new(Some(chatgpt_entry(None))), None, false).unwrap();
    assert_eq!(chat.get_token().unwrap(), "test-access-token");
    let empty = load_auth(
        &AuthStore::new(Some(AuthDotJson {
            openai_api_key: None,
            tokens: None,
            last_refresh: None,
        })),
        None,
        false,
    )
    .unwrap();
    assert_eq!(empty.mode, AuthMode::ChatGPT);
    assert!(matches!(empty.get_token(), Err(CodexErr::Auth { .. })));
}

#[test]
fn refresh_outcome_maps_status() {
    let ok = codex::auth::refresh_outcome(
        200,
        Some(RefreshResponse {
            id_token: None,
            access_token: Some("A".to_string()),
            refresh_token: Some("R".to_string()),
        }),
    );
    match ok {
        Ok(resp) => assert_eq!(resp.access_token.as_deref(), Some("A")),
        other => panic!("expected success, got {other:?}"),
    }
    match codex::auth::refresh_outcome(401, None) {
        Err(CodexErr::Auth { message }) => {
            assert_eq!(message, "Failed to refresh token: 401")
        }
        other => panic!("expected a named status, got {other:?}"),
    }
    match codex::auth::refresh_outcome(204, None) {
        Err(CodexErr::Auth { message }) => {
            assert_eq!(message, "Failed to parse the token refresh response")
        }
        other => panic!("expected a parse failure, got {other:?}"),
    }
}

#[test]
fn base64url_decodes_jwt_segments() {
    assert_eq!(
        codex::b64::b64url_decode("aGVsbG8").as_deref(),
        Some(b"hello".as_slice())
    );
    assert_eq!(
        codex::b64::b64url_decode("").as_deref(),
        Some(b"".as_slice())
    );
    // 62 and 63 use the url alphabet.
    assert_eq!(
        codex::b64::b64url_decode("-_8").as_deref(),
        Some([0xfb, 0xff].as_slice())
    );
    // A lone trailing character or a padding character is invalid.
    assert!(codex::b64::b64url_decode("aGVsbG8x0").is_none());
    assert!(codex::b64::b64url_decode("aGVsbG8=").is_none());
}
