use msys_bootstrap::assets::{name_matches, resolve_installer, select_asset, AssetRecord};
use msys_bootstrap::errors::StepError;
use msys_bootstrap::text::{str_contains, str_ends_with};

fn record(name: &str, url: &str) -> AssetRecord {
    AssetRecord { name: Some(name.to_string()), url: Some(url.to_string()) }
}

#[test]
fn substring_test_finds_and_rejects() {
    assert!(str_contains("msys2-x86_64-20240101.exe", "x86_64"));
    assert!(str_contains("abc", ""));
    assert!(str_contains("abc", "abc"));
    assert!(!str_contains("msys2-i686-20240101.exe", "x86_64"));
    assert!(!str_contains("ab", "abc"));
}

#[test]
fn suffix_test_finds_and_rejects() {
    assert!(str_ends_with("setup.exe", ".exe"));
    assert!(str_ends_with("a.sfx.exe", "sfx.exe"));
    assert!(!str_ends_with("setup.exe.bak", ".exe"));
    assert!(!str_ends_with("exe", "sfx.exe"));
}

#[test]
fn name_predicate_matches_spec() {
    assert!(name_matches("msys2-x86_64-20240101.exe"));
    assert!(!name_matches("msys2-x86_64-20240101.sfx.exe"));
    assert!(!name_matches("msys2-i686-20240101.exe"));
    assert!(!name_matches("msys2-x86_64-20240101.tar.xz"));
    assert!(!name_matches(""));
}

#[test]
fn selector_picks_first_matching_asset() {
    let assets = vec![
        record("msys2-x86_64-20240101.exe", "https://example.invalid/a"),
        record("msys2-x86_64-20240101.sfx.exe", "https://example.invalid/b"),
        record("msys2-i686-20240101.exe", "https://example.invalid/c"),
    ];
    let sel = select_asset(&assets).unwrap_or_else(|_| panic!("expected a selection"));
    assert_eq!(sel.name, "msys2-x86_64-20240101.exe");
    assert_eq!(sel.url, "https://example.invalid/a");
}

#[test]
fn selector_skips_sfx_and_wrong_architecture() {
    let assets = vec![
        record("msys2-i686-20240101.exe", "https://example.invalid/c"),
        record("msys2-x86_64-20240101.sfx.exe", "https://example.invalid/b"),
        record("msys2-x86_64-20240101.exe", "https://example.invalid/a"),
    ];
    let sel = select_asset(&assets).unwrap_or_else(|_| panic!("expected a selection"));
    assert_eq!(sel.name, "msys2-x86_64-20240101.exe");
}

#[test]
fn selector_fails_without_match() {
    let assets = vec![
        record("msys2-i686-20240101.exe", "https://example.invalid/c"),
        record("msys2-x86_64-20240101.sfx.exe", "https://example.invalid/b"),
    ];
    match select_asset(&assets) {
        Err(e) => assert_eq!(e, StepError::NoMatchingAsset),
        Ok(_) => panic!("selection should fail"),
    }
}

#[test]
fn selector_fails_on_empty_list() {
    match select_asset(&Vec::new()) {
        Err(e) => assert_eq!(e, StepError::NoMatchingAsset),
        Ok(_) => panic!("selection should fail"),
    }
}

#[test]
fn selector_ignores_nameless_assets() {
    let assets = vec![
        AssetRecord { name: None, url: Some("https://example.invalid/x".to_string()) },
        record("msys2-x86_64-1.exe", "https://example.invalid/a"),
    ];
    let sel = select_asset(&assets).unwrap_or_else(|_| panic!("expected a selection"));
    assert_eq!(sel.name, "msys2-x86_64-1.exe");
}

#[test]
fn selected_asset_without_url_is_a_parse_failure() {
    let assets = vec![AssetRecord { name: Some("msys2-x86_64-1.exe".to_string()), url: None }];
    match select_asset(&assets) {
        Err(e) => assert_eq!(e, StepError::ResponseParse),
        Ok(_) => panic!("selection should fail"),
    }
}

#[test]
fn resolution_selects_from_metadata_body() {
    let body = "{\"assets\":[\
        {\"name\":\"msys2-x86_64-20240101.exe\",\"browser_download_url\":\"https://example.invalid/a\"},\
        {\"name\":\"msys2-x86_64-20240101.sfx.exe\",\"browser_download_url\":\"https://example.invalid/b\"},\
        {\"name\":\"msys2-i686-20240101.exe\",\"browser_download_url\":\"https://example.invalid/c\"}]}";
    let sel = resolve_installer(body).unwrap_or_else(|_| panic!("expected a selection"));
    assert_eq!(sel.name, "msys2-x86_64-20240101.exe");
    assert_eq!(sel.url, "https://example.invalid/a");
}

#[test]
fn resolution_fails_on_malformed_body() {
    match resolve_installer("not json at all") {
        Err(e) => assert_eq!(e, StepError::ResponseParse),
        Ok(_) => panic!("resolution should fail"),
    }
}

#[test]
fn resolution_without_asset_list_finds_no_match() {
    match resolve_installer("{\"tag_name\":\"v1\"}") {
        Err(e) => assert_eq!(e, StepError::NoMatchingAsset),
        Ok(_) => panic!("resolution should fail"),
    }
}

#[test]
fn resolution_with_empty_asset_list_finds_no_match() {
    match resolve_installer("{\"assets\":[]}") {
        Err(e) => assert_eq!(e, StepError::NoMatchingAsset),
        Ok(_) => panic!("resolution should fail"),
    }
}
