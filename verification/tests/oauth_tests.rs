use hangar_core::oauth::{
    authorize_url, extract_token_error_code, login_account, manual_callback, new_login_account,
    parse_code_from_callback_url, urlencode, LoginHooks, ManualCallback, RefreshError, TokenResponse,
};

#[test]
fn hooks_reject_wrong_state() {
    struct StdinHooks;
    impl LoginHooks for StdinHooks {
        fn show_auth_url(&self, url: &str) {
            let _shown: String = url.to_string();
        }
        fn prompt_callback(&self, _state: &str) -> Option<String> {
            None
        }
    }
    let hooks = StdinHooks;
    assert!(parse_code_from_callback_url(
        "http://localhost:1455/auth/callback?code=abc&state=s1",
        "other"
    )
    .is_err());
    let _ = &hooks as &dyn LoginHooks;
}

#[test]
fn callback_url_requires_localhost_auth_path() {
    let ok = "http://localhost:1455/auth/callback?code=abc&state=s1";
    assert_eq!(parse_code_from_callback_url(ok, "s1").as_deref(), Ok("abc"));
    assert!(parse_code_from_callback_url(ok, "other").is_err());
    assert!(parse_code_from_callback_url("http://127.0.0.1:1455/callback?code=abc&state=s1", "s1").is_err());
    assert!(parse_code_from_callback_url(
        "https://chatgpt.com/codex/desktop-auth?code=abc&state=s1",
        "s1"
    )
    .is_err());
}

#[test]
fn token_error_code_extraction_redacts_body() {
    assert_eq!(
        extract_token_error_code(r#"{"error":"invalid_grant"}"#).as_deref(),
        Some("invalid_grant")
    );
    assert_eq!(
        extract_token_error_code(r#"{"error":{"code":"refresh_token_reused"}}"#).as_deref(),
        Some("refresh_token_reused")
    );
    assert!(extract_token_error_code("not json").is_none());
}

#[test]
fn refresh_error_classifies_auth_without_string_matching() {
    let auth = RefreshError::AuthRejected {
        status: 400,
        code: Some("invalid_grant".to_string()),
        body_len: 123,
    };
    assert!(auth.is_auth_rejection());
    assert!(!auth.to_message().contains("secret"));
    assert!(!RefreshError::AuthRejected {
        status: 400,
        code: Some("temporarily_unavailable".to_string()),
        body_len: 0,
    }
    .is_auth_rejection());
    assert!(!RefreshError::Transport("timeout".to_string()).is_auth_rejection());
}

#[test]
fn callback_errors_name_the_problem() {
    assert_eq!(
        parse_code_from_callback_url("http://localhost:1455/auth/callback?state=s1", "s1"),
        Err("缺少 code 参数".to_string())
    );
    assert_eq!(
        parse_code_from_callback_url("http://localhost:1455/auth/callback?code=a&state=x", "s1"),
        Err("state 不匹配（请确认是本次登录的回调链接）".to_string())
    );
    assert!(parse_code_from_callback_url("not a url", "s1")
        .unwrap_err()
        .starts_with("URL 格式无效"));
}

#[test]
fn pasted_callback_lines() {
    assert!(matches!(manual_callback(None, "s"), ManualCallback::Abandoned));
    assert!(matches!(manual_callback(Some("   \n".into()), "s"), ManualCallback::Abandoned));
    match manual_callback(Some(" http://localhost:1455/auth/callback?code=c1&state=s \n".into()), "s") {
        ManualCallback::Code(c) => assert_eq!(c, "c1"),
        other => panic!("unexpected {:?}", other),
    }
    match manual_callback(Some("http://localhost:1455/auth/callback?code=c1&state=t".into()), "s") {
        ManualCallback::Invalid(m) => assert!(m.starts_with("回调解析失败: ")),
        other => panic!("unexpected {:?}", other),
    }
}

#[test]
fn url_encoding_of_the_authorize_request() {
    assert_eq!(urlencode("a b/c~"), "a%20b%2Fc~");
    let url = authorize_url("http://localhost:1455/auth/callback", "chal", "st");
    assert!(url.starts_with("https://auth.openai.com/oauth/authorize?response_type=code&client_id="));
    assert!(url.contains("redirect_uri=http%3A%2F%2Flocalhost%3A1455%2Fauth%2Fcallback"));
    assert!(url.contains("code_challenge=chal"));
    assert!(url.contains("state=st"));
}

#[test]
fn a_login_makes_an_account_under_a_new_id() {
    let token = TokenResponse {
        access_token: "opaque-at".to_string(),
        refresh_token: Some("rt".to_string()),
        id_token: None,
        expires_in: Some(600),
        token_type: None,
    };
    let a = login_account(token, "a@example.com".to_string(), 1_000, "fixed".to_string());
    assert_eq!(a.id, "fixed");
    assert_eq!(a.email, "a@example.com");
    assert_eq!(a.refresh_token, "rt");
    assert_eq!(a.id_token, "");
    assert_eq!(a.expires_at, 1_600);
    assert!(!a.stale);
    assert!(a.account_id.is_none());
    let token = TokenResponse {
        access_token: "opaque-at".to_string(),
        refresh_token: None,
        id_token: None,
        expires_in: None,
        token_type: None,
    };
    let b = new_login_account(token, "b@example.com".to_string(), 1_000);
    assert_eq!(b.id.len(), 36);
    assert_eq!(b.id.matches('-').count(), 4);
    assert_eq!(b.expires_at, 4_600);
    assert_eq!(b.refresh_token, "");
}
