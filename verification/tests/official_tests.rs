use hangar_core::account::Account;
use hangar_core::official::projected_auth_text;

fn account(account_id: Option<&str>) -> Account {
    Account {
        id: "id-a".into(),
        email: "a@example.com".into(),
        access_token: "at".into(),
        refresh_token: "rt".into(),
        id_token: "idt".into(),
        expires_at: 0,
        stale: false,
        account_id: account_id.map(|s| s.to_string()),
        organization_id: None,
    }
}

#[test]
fn projection_keeps_other_members_and_replaces_credentials() {
    let existing = r#"{"type":"keep","OPENAI_API_KEY":"sk-old","tokens":{"x":1},"expired":true,"timestamp":5}"#;
    let text = projected_auth_text(Some(existing), &account(Some("acct")), "2026-01-01T00:00:00Z");
    let v: serde_json::Value = serde_json::from_str(&text).unwrap();
    assert_eq!(v["type"], "keep");
    assert_eq!(v["auth_mode"], "chatgpt");
    assert!(v["OPENAI_API_KEY"].is_null());
    assert_eq!(v["tokens"]["access_token"], "at");
    assert_eq!(v["tokens"]["refresh_token"], "rt");
    assert_eq!(v["tokens"]["id_token"], "idt");
    assert_eq!(v["tokens"]["account_id"], "acct");
    assert_eq!(v["last_refresh"], "2026-01-01T00:00:00Z");
    assert!(v.get("expired").is_none() && v.get("timestamp").is_none());
    assert!(v["tokens"].get("x").is_none());
    assert!(text.contains("\n  \"auth_mode\""));
}

#[test]
fn projection_without_a_usable_file_and_with_a_blank_account_id() {
    for existing in [None, Some("broken"), Some("[1,2]")] {
        let text = projected_auth_text(existing, &account(Some("  ")), "t");
        let v: serde_json::Value = serde_json::from_str(&text).unwrap();
        assert_eq!(v.as_object().unwrap().len(), 4);
        assert!(v["tokens"]["account_id"].is_null());
    }
    let v: serde_json::Value =
        serde_json::from_str(&projected_auth_text(None, &account(None), "t")).unwrap();
    assert!(v["tokens"]["account_id"].is_null());
}
