use aptos_wasm::cli_error::CliError;
use aptos_wasm::cli_config::{CliConfig, ProfileConfig, ProfileSummary};
use aptos_wasm::move_package_dir::MovePackageDir;
use aptos_wasm::utils::{bytecode_version_setting, dir_default_to_current, u32_to_dec_string};

#[test]
fn explicit_directory_is_used_verbatim() {
    let r = dir_default_to_current(Some("/pkg".to_string()), Some("/cwd".to_string()));
    assert_eq!(r.unwrap(), "/pkg");
}

#[test]
fn missing_directory_falls_back_to_current() {
    let r = dir_default_to_current(None, Some("/cwd".to_string()));
    assert_eq!(r.unwrap(), "/cwd");
}

#[test]
fn unknown_current_directory_is_an_unexpected_error() {
    match dir_default_to_current(None, None) {
        Err(CliError::UnexpectedError(msg)) => {
            assert_eq!(msg, "Failed to get current directory")
        }
        other => panic!("expected an unexpected-error kind, got {:?}", other),
    }
}

#[test]
fn version_defaults_to_five_when_nothing_is_set() {
    assert_eq!(bytecode_version_setting(None, None), Some("5".to_string()));
}

#[test]
fn explicit_version_overrides_the_environment() {
    assert_eq!(
        bytecode_version_setting(Some(7), Some("5".to_string())),
        Some("7".to_string())
    );
    assert_eq!(bytecode_version_setting(Some(7), None), Some("7".to_string()));
}

#[test]
fn existing_setting_is_left_alone_without_an_explicit_version() {
    assert_eq!(bytecode_version_setting(None, Some("6".to_string())), None);
}

#[test]
fn decimal_rendering_is_exact() {
    assert_eq!(u32_to_dec_string(0), "0");
    assert_eq!(u32_to_dec_string(5), "5");
    assert_eq!(u32_to_dec_string(42), "42");
    assert_eq!(u32_to_dec_string(4294967295), "4294967295");
}

#[test]
fn package_dir_defaults() {
    let m = MovePackageDir::new("/pkg".to_string());
    assert_eq!(m.package_dir, Some("/pkg".to_string()));
    assert!(m.output_dir.is_none());
    assert!(m.skip_fetch_latest_git_deps);
    assert!(m.bytecode_version.is_none());
    assert_eq!(m.bytecode_version_or_detault(), 5);
    assert_eq!(m.get_package_path(None).unwrap(), "/pkg");
}

#[test]
fn explicit_bytecode_version_wins() {
    let mut m = MovePackageDir::new("/pkg".to_string());
    m.bytecode_version = Some(6);
    assert_eq!(m.bytecode_version_or_detault(), 6);
}

#[test]
fn added_named_address_replaces_existing_binding() {
    let mut m = MovePackageDir::new("/pkg".to_string());
    m.add_named_address("alice".to_string(), "0x1".to_string());
    m.add_named_address("bob".to_string(), "0x2".to_string());
    m.add_named_address("alice".to_string(), "0x3".to_string());
    let table = m.named_addresses();
    assert_eq!(table.len(), 2);
    for (name, addr) in &table {
        match name.as_str() {
            "alice" => assert_eq!(addr.as_bytes()[15], 3),
            "bob" => assert_eq!(addr.as_bytes()[15], 2),
            other => panic!("unexpected name {}", other),
        }
    }
}

#[test]
fn profile_summary_never_reports_a_private_key() {
    let mut config = ProfileConfig::default();
    config.rest_url = Some("http://localhost:8080".to_string());
    let summary = ProfileSummary::from(&config);
    assert!(!summary.has_private_key);
    assert!(summary.account.is_none());
    assert_eq!(summary.rest_url, Some("http://localhost:8080".to_string()));
    assert!(summary.faucet_url.is_none());
}

#[test]
fn default_config_holds_an_empty_profile_map() {
    let config = CliConfig::default();
    assert_eq!(config.profiles.map(|p| p.len()), Some(0));
}
