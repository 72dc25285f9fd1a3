use hangar_core::updater::{
    asset_name_for_target, cache_expired, check_due, current_target, find_checksum, is_newer,
    check_record_text, last_check_of, old_name_for, parse_version, release_from_doc, release_from_text,
    tmp_name_for, verify_checksum,
};

#[test]
fn newer_comparison() {
    assert!(is_newer("0.3.0", "0.2.0"));
    assert!(!is_newer("0.2.0", "0.2.0"));
    assert!(!is_newer("0.2.0", "0.3.0"));
    assert!(!is_newer("bad", "0.2.0"));
    assert!(!is_newer("0.2.0", "bad"));
}

#[test]
fn checksum_line_parses_crlf() {
    let body = "abc123  hangar-linux-amd64\r\ndef456  hangar-macos-arm64\r\n";
    assert_eq!(find_checksum(body, "hangar-linux-amd64").as_deref(), Some("abc123"));
    assert_eq!(find_checksum(body, "hangar-windows-x86_64.exe").as_deref(), None);
}

#[test]
fn cache_ttl_boundary() {
    assert!(!cache_expired(1_000_000, 1_000_000 - 86_399));
    assert!(cache_expired(1_000_000, 1_000_000 - 86_401));
}

#[test]
fn corrupt_cache_means_expired() {
    assert!(cache_expired(1_000_000, 0));
}

#[test]
fn asset_name_uses_cli_release_contract() {
    let windows = std::path::MAIN_SEPARATOR == '\\';
    let cli = asset_name_for_target("linux-amd64", windows);
    assert!(cli.starts_with("hangar-") && !cli.contains("gui"));
    if windows {
        assert!(cli.ends_with(".exe"));
    } else {
        assert!(!cli.ends_with(".exe"));
    }
}

#[test]
fn versions_targets_and_file_names() {
    assert_eq!(parse_version(" v1.2.3 "), Some((1, 2, 3)));
    assert_eq!(parse_version("1.2"), None);
    assert_eq!(parse_version("1.2.3.4"), Some((1, 2, 3)));
    assert!(is_newer("v1.10.0", "1.9.9"));
    assert_eq!(current_target("linux", "x86_64"), Some("linux-amd64"));
    assert_eq!(current_target("windows", "x86_64"), Some("windows-x86_64"));
    assert_eq!(current_target("freebsd", "x86_64"), None);
    assert_eq!(asset_name_for_target("windows-x86_64", true), "hangar-windows-x86_64.exe");
    assert_eq!(tmp_name_for(Some("hangar")), "hangar.update-tmp");
    assert_eq!(old_name_for(None), "hangar.old");
    assert!(check_due(false, None, 5));
    assert!(!check_due(false, Some(5), 10));
    assert!(check_due(true, Some(5), 10));
}

#[test]
fn release_document_needs_newer_tag_binary_and_checksums() {
    let doc: serde_json::Value = serde_json::from_str(
        r#"{"tag_name":"v0.3.0","assets":[
            {"name":"hangar-linux-amd64","browser_download_url":"https://x/bin"},
            {"name":"SHA256SUMS.txt","browser_download_url":"https://x/sums"}]}"#,
    )
    .unwrap();
    let info = release_from_doc(&doc, "linux-amd64", " 0.2.0 ", false).expect("newer");
    assert_eq!(info.tag, "v0.3.0");
    assert_eq!(info.version, "0.3.0");
    assert_eq!(info.binary_url, "https://x/bin");
    assert_eq!(info.checksum_url, "https://x/sums");
    assert_eq!(info.asset, "hangar-linux-amd64");
    assert!(release_from_doc(&doc, "linux-amd64", "0.3.0", false).is_none());
    assert!(release_from_doc(&doc, "macos-arm64", "0.2.0", false).is_none());
}

#[test]
fn checksums_are_compared_ignoring_case() {
    let digest = "2cf24dba5fb0a30e26e83b2ac5b9e29e1b161e5c1fa7425e73043362938b9824";
    let sums = format!("{}  hangar-linux-amd64\n", digest.to_uppercase());
    assert!(verify_checksum(b"hello", &sums, "hangar-linux-amd64").is_ok());
    assert!(verify_checksum(b"hellO", &sums, "hangar-linux-amd64").is_err());
    assert_eq!(
        verify_checksum(b"hello", &sums, "hangar-macos-arm64").unwrap_err(),
        "校验文件缺失本平台条目，已中止升级"
    );
}

#[test]
fn sibling_names_keep_dir_and_stem() {
    // directories with spaces and CJK: the names are joined as path parts
    let dir = std::path::PathBuf::from("tmp").join("我的 目录");
    let exe = dir.join("hangar");
    let name = exe.file_name().and_then(|n| n.to_str());
    assert_eq!(dir.join(tmp_name_for(name)), dir.join("hangar.update-tmp"));
    assert_eq!(dir.join(old_name_for(name)), dir.join("hangar.old"));
}

#[test]
fn release_body_and_check_record_texts() {
    let body = r#"{"tag_name":"v0.3.0","assets":[
        {"name":"hangar-linux-amd64","browser_download_url":"https://x/bin"},
        {"name":"SHA256SUMS.txt","browser_download_url":"https://x/sums"}]}"#;
    let info = release_from_text(body, "linux-amd64", "0.2.0", false).expect("newer");
    assert_eq!(info.binary_url, "https://x/bin");
    assert!(release_from_text("not json", "linux-amd64", "0.2.0", false).is_none());
    assert_eq!(check_record_text(1_700_000_000), r#"{"last_check":1700000000}"#);
    assert_eq!(last_check_of(&check_record_text(42)), Some(42));
    assert_eq!(last_check_of(r#"{"last_check":-1}"#), None);
    assert_eq!(last_check_of("broken"), None);
    assert_eq!(last_check_of("{}"), None);
}
