use dsh_config::constants::{DSH_DEV_PORT, DSH_PORT, STORE_DAT_DEV_FILE, STORE_DAT_FILE};
use dsh_config::external::{
    dsh_core_url_override, dsh_mirror_core_url_override, gh_mirror_prefix_override,
    ghfast_prefix_override, ghproxy_prefix_override, node_mirror_base_override,
    npm_registry_override, pnpm_mirror_base_override, ExternalConfig,
};
use dsh_config::setting::{
    default_active_profile, default_cli_link_enabled, default_port, get_dsh_pkg_commit,
    get_dsh_pkg_tag, set_dsh_pkg_commit, set_dsh_pkg_tag, store_dat_file_name, Setting,
};
use dsh_config::text::ensure_trailing_slash;

#[test]
fn default_ports_differ_by_build() {
    assert_eq!(default_port(false), 3080);
    assert_eq!(default_port(true), 3081);
    assert_eq!(default_port(false), DSH_PORT);
    assert_eq!(default_port(true), DSH_DEV_PORT);
}

#[test]
fn store_files_differ_by_build() {
    assert_eq!(store_dat_file_name(false), STORE_DAT_FILE);
    assert_eq!(store_dat_file_name(true), STORE_DAT_DEV_FILE);
    assert_ne!(store_dat_file_name(false), store_dat_file_name(true));
}

#[test]
fn fresh_setting_values() {
    let s = Setting::default_for(true);
    assert!(!s.installed);
    assert_eq!(s.port, 3081);
    assert!(s.auto_start);
    assert_eq!(s.language, "zh-CN");
    assert_eq!(s.dsh_pkg_commit, None);
    assert_eq!(s.dsh_pkg_tag, None);
    assert!(s.cli_link_enabled);
    assert!(!s.preinstall_done);
    assert_eq!(s.preset_hash, None);
    assert!(!s.dsh_home_migrated);
    assert_eq!(s.active_profile, "web");
    assert_eq!(s.active_core, None);
    assert_eq!(s.manual_port, None);
    assert_eq!(s.npm_registry_mode, None);
    assert_eq!(s.gh_accel_mode, None);
    assert_eq!(Setting::default_for(false).port, 3080);
    assert_eq!(default_active_profile(), "web");
    assert!(default_cli_link_enabled());
}

#[test]
fn pkg_commit_and_tag_read_back() {
    let mut s = Setting::default_for(false);
    set_dsh_pkg_commit(&mut s, "abc123".to_string());
    assert_eq!(get_dsh_pkg_commit(&s), Some("abc123".to_string()));
    assert_eq!(get_dsh_pkg_tag(&s), None);
    set_dsh_pkg_tag(&mut s, "v1.2.3".to_string());
    assert_eq!(get_dsh_pkg_tag(&s), Some("v1.2.3".to_string()));
    assert_eq!(get_dsh_pkg_commit(&s), Some("abc123".to_string()));
    assert_eq!(s.port, 3080);
}

#[test]
fn overrides_read_back() {
    let cfg = ExternalConfig {
        npm_registry: Some("a".to_string()),
        gh_mirror_prefix: Some("b".to_string()),
        node_mirror_base: Some("c".to_string()),
        pnpm_mirror_base: Some("d".to_string()),
        dsh_core_url: Some("e".to_string()),
        dsh_mirror_core_url: Some("f".to_string()),
        ghfast_prefix: Some("g".to_string()),
        ghproxy_prefix: Some("h".to_string()),
    };
    assert_eq!(npm_registry_override(&cfg).as_deref(), Some("a"));
    assert_eq!(gh_mirror_prefix_override(&cfg).as_deref(), Some("b"));
    assert_eq!(node_mirror_base_override(&cfg).as_deref(), Some("c"));
    assert_eq!(pnpm_mirror_base_override(&cfg).as_deref(), Some("d"));
    assert_eq!(dsh_core_url_override(&cfg).as_deref(), Some("e"));
    assert_eq!(dsh_mirror_core_url_override(&cfg).as_deref(), Some("f"));
    assert_eq!(ghfast_prefix_override(&cfg).as_deref(), Some("g"));
    assert_eq!(ghproxy_prefix_override(&cfg).as_deref(), Some("h"));
    let empty = ExternalConfig::default();
    assert_eq!(npm_registry_override(&empty), None);
    assert_eq!(ghproxy_prefix_override(&empty), None);
}

#[test]
fn trailing_slash_cases() {
    assert_eq!(ensure_trailing_slash("abc".to_string()), "abc/");
    assert_eq!(ensure_trailing_slash("abc/".to_string()), "abc/");
    assert_eq!(ensure_trailing_slash(String::new()), "/");
    assert_eq!(ensure_trailing_slash("黑/".to_string()), "黑/");
    let once = ensure_trailing_slash("x".to_string());
    assert_eq!(ensure_trailing_slash(once.clone()), once);
}

