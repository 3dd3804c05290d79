use dsh_config::accel::{
    gh_mirror_prefix, gh_mode, npm_mode, npm_registry_url, AccelConfig, GHPROXY_PREFIX,
    NPM_MIRROR_REGISTRY, OFFICIAL_NPM_REGISTRY,
};
use dsh_config::constants::DSH_MIRROR_PREFIX;
use dsh_config::external::ExternalConfig;
use dsh_config::region::Region;
use dsh_config::setting::Setting;

fn npm_setting(mode: Option<&str>, custom: Option<&str>) -> Setting {
    let mut s = Setting::default_for(false);
    s.npm_registry_mode = mode.map(str::to_string);
    s.npm_registry_custom = custom.map(str::to_string);
    s
}

fn gh_setting(mode: Option<&str>, custom: Option<&str>) -> Setting {
    let mut s = Setting::default_for(false);
    s.gh_accel_mode = mode.map(str::to_string);
    s.gh_accel_custom = custom.map(str::to_string);
    s
}

fn no_overrides() -> ExternalConfig {
    ExternalConfig::default()
}

#[test]
fn official_uses_npmjs_registry() {
    let s = npm_setting(Some(npm_mode::OFFICIAL), None);
    assert_eq!(
        npm_registry_url(&s, &no_overrides(), Region::Domestic),
        "https://registry.npmjs.org/"
    );
}

#[test]
fn npmmirror_uses_ali_registry() {
    let s = npm_setting(Some(npm_mode::NPM_MIRROR), None);
    assert_eq!(
        npm_registry_url(&s, &no_overrides(), Region::Overseas),
        "https://registry.npmmirror.com/"
    );
}

#[test]
fn custom_appends_trailing_slash() {
    let s = npm_setting(
        Some(npm_mode::CUSTOM),
        Some("http://package.onecode.cmict.cloud/repository/npm-group"),
    );
    assert_eq!(
        npm_registry_url(&s, &no_overrides(), Region::Domestic),
        "http://package.onecode.cmict.cloud/repository/npm-group/"
    );
}

#[test]
fn custom_empty_falls_back_to_auto() {
    let s = npm_setting(Some(npm_mode::CUSTOM), Some("   "));
    assert!(!npm_registry_url(&s, &no_overrides(), Region::Domestic).is_empty());
    assert!(!npm_registry_url(&s, &no_overrides(), Region::Overseas).is_empty());
}

#[test]
fn governance_uses_desktop_config_override() {
    let ext = ExternalConfig {
        npm_registry: Some("https://registry.ict.cmcc/".to_string()),
        ..Default::default()
    };
    let s = npm_setting(Some(npm_mode::GOVERNANCE), None);
    assert_eq!(
        npm_registry_url(&s, &ext, Region::Domestic),
        "https://registry.ict.cmcc/"
    );
}

#[test]
fn gh_none_returns_none() {
    let s = gh_setting(Some(gh_mode::NONE), None);
    assert_eq!(gh_mirror_prefix(&s, &no_overrides(), Region::Domestic), None);
}

#[test]
fn ghfast_returns_prefix() {
    let s = gh_setting(Some(gh_mode::GHFAST), None);
    assert_eq!(
        gh_mirror_prefix(&s, &no_overrides(), Region::Overseas),
        Some(DSH_MIRROR_PREFIX.to_string())
    );
}

#[test]
fn ghproxy_returns_prefix() {
    let s = gh_setting(Some(gh_mode::GHPROXY), None);
    assert_eq!(
        gh_mirror_prefix(&s, &no_overrides(), Region::Domestic),
        Some(GHPROXY_PREFIX.to_string())
    );
}

#[test]
fn gh_custom_ensures_slash() {
    let s = gh_setting(Some(gh_mode::CUSTOM), Some("http://git-mirror.corp"));
    assert_eq!(
        gh_mirror_prefix(&s, &no_overrides(), Region::Domestic),
        Some("http://git-mirror.corp/".to_string())
    );
}

// ---- further cases ----

#[test]
fn auto_npm_follows_region() {
    let s = npm_setting(Some(npm_mode::AUTO), None);
    assert_eq!(npm_registry_url(&s, &no_overrides(), Region::Domestic), NPM_MIRROR_REGISTRY);
    assert_eq!(npm_registry_url(&s, &no_overrides(), Region::Overseas), OFFICIAL_NPM_REGISTRY);
}

#[test]
fn unset_npm_mode_is_auto() {
    let unset = npm_setting(None, None);
    let auto = npm_setting(Some(npm_mode::AUTO), None);
    for region in [Region::Domestic, Region::Overseas] {
        assert_eq!(
            npm_registry_url(&unset, &no_overrides(), region),
            npm_registry_url(&auto, &no_overrides(), region)
        );
    }
}

#[test]
fn unknown_npm_mode_is_auto() {
    let s = npm_setting(Some("weird"), None);
    assert_eq!(npm_registry_url(&s, &no_overrides(), Region::Overseas), OFFICIAL_NPM_REGISTRY);
}

#[test]
fn auto_npm_prefers_override_over_region() {
    let ext = ExternalConfig {
        npm_registry: Some("http://inner:4873".to_string()),
        ..Default::default()
    };
    let s = npm_setting(None, None);
    assert_eq!(npm_registry_url(&s, &ext, Region::Domestic), "http://inner:4873/");
    assert_eq!(npm_registry_url(&s, &ext, Region::Overseas), "http://inner:4873/");
}

#[test]
fn custom_url_is_trimmed() {
    let s = npm_setting(Some(npm_mode::CUSTOM), Some("  http://npm.corp/repo \t"));
    assert_eq!(npm_registry_url(&s, &no_overrides(), Region::Domestic), "http://npm.corp/repo/");
}

#[test]
fn custom_absent_falls_back_to_auto() {
    let s = npm_setting(Some(npm_mode::CUSTOM), None);
    assert_eq!(npm_registry_url(&s, &no_overrides(), Region::Domestic), NPM_MIRROR_REGISTRY);
}

#[test]
fn governance_blank_override_falls_back_to_auto() {
    let ext = ExternalConfig {
        npm_registry: Some("  ".to_string()),
        ..Default::default()
    };
    let s = npm_setting(Some(npm_mode::GOVERNANCE), None);
    // the auto strategy takes the override untrimmed
    assert_eq!(npm_registry_url(&s, &ext, Region::Domestic), "  /");
    let s = npm_setting(Some(npm_mode::GOVERNANCE), None);
    assert_eq!(npm_registry_url(&s, &no_overrides(), Region::Overseas), OFFICIAL_NPM_REGISTRY);
}

#[test]
fn governance_override_is_trimmed_and_slashed() {
    let ext = ExternalConfig {
        npm_registry: Some(" http://verdaccio.corp ".to_string()),
        ..Default::default()
    };
    let s = npm_setting(Some(npm_mode::GOVERNANCE), None);
    assert_eq!(npm_registry_url(&s, &ext, Region::Overseas), "http://verdaccio.corp/");
}

#[test]
fn auto_gh_follows_region() {
    let s = gh_setting(None, None);
    assert_eq!(
        gh_mirror_prefix(&s, &no_overrides(), Region::Domestic),
        Some(DSH_MIRROR_PREFIX.to_string())
    );
    assert_eq!(gh_mirror_prefix(&s, &no_overrides(), Region::Overseas), None);
}

#[test]
fn auto_gh_prefers_override() {
    let ext = ExternalConfig {
        gh_mirror_prefix: Some("http://git-mirror".to_string()),
        ..Default::default()
    };
    let s = gh_setting(Some(gh_mode::AUTO), None);
    assert_eq!(
        gh_mirror_prefix(&s, &ext, Region::Overseas),
        Some("http://git-mirror/".to_string())
    );
}

#[test]
fn ghfast_and_ghproxy_overrides() {
    let ext = ExternalConfig {
        ghfast_prefix: Some("http://fast.corp".to_string()),
        ghproxy_prefix: Some("http://proxy.corp/".to_string()),
        ..Default::default()
    };
    let s = gh_setting(Some(gh_mode::GHFAST), None);
    assert_eq!(gh_mirror_prefix(&s, &ext, Region::Overseas), Some("http://fast.corp/".to_string()));
    let s = gh_setting(Some(gh_mode::GHPROXY), None);
    assert_eq!(gh_mirror_prefix(&s, &ext, Region::Overseas), Some("http://proxy.corp/".to_string()));
    // auto inside mainland China goes through the (overridden) ghfast prefix
    let s = gh_setting(None, None);
    assert_eq!(gh_mirror_prefix(&s, &ext, Region::Domestic), Some("http://fast.corp/".to_string()));
}

#[test]
fn gh_custom_blank_falls_back_to_auto() {
    let s = gh_setting(Some(gh_mode::CUSTOM), Some(" \u{3000}"));
    assert_eq!(gh_mirror_prefix(&s, &no_overrides(), Region::Overseas), None);
}

#[test]
fn accel_config_of_fresh_setting() {
    let s = Setting::default_for(false);
    let cfg = AccelConfig::from_setting(&s, &no_overrides(), Region::Overseas);
    assert_eq!(cfg.npm_registry_mode, "auto");
    assert_eq!(cfg.npm_registry_custom, "");
    assert_eq!(cfg.npm_registry_url, OFFICIAL_NPM_REGISTRY);
    assert_eq!(cfg.gh_accel_mode, "auto");
    assert_eq!(cfg.gh_accel_custom, "");
    assert_eq!(cfg.gh_accel_prefix, "");
}

#[test]
fn accel_config_of_custom_setting() {
    let mut s = npm_setting(Some(npm_mode::CUSTOM), Some("http://npm.corp"));
    s.gh_accel_mode = Some(gh_mode::CUSTOM.to_string());
    s.gh_accel_custom = Some("http://git.corp".to_string());
    let cfg = AccelConfig::from_setting(&s, &no_overrides(), Region::Domestic);
    assert_eq!(cfg.npm_registry_mode, "custom");
    assert_eq!(cfg.npm_registry_custom, "http://npm.corp");
    assert_eq!(cfg.npm_registry_url, "http://npm.corp/");
    assert_eq!(cfg.gh_accel_mode, "custom");
    assert_eq!(cfg.gh_accel_custom, "http://git.corp");
    assert_eq!(cfg.gh_accel_prefix, "http://git.corp/");
}

#[test]
fn unicode_white_space_is_trimmed() {
    let s = gh_setting(Some(gh_mode::CUSTOM), Some("\u{3000}http://git.corp\u{a0}\n"));
    assert_eq!(
        gh_mirror_prefix(&s, &no_overrides(), Region::Overseas),
        Some("http://git.corp/".to_string())
    );
}

#[test]
fn mode_names_compare_exactly() {
    // a strategy name that only starts like a known one is no known strategy
    let s = npm_setting(Some("officia"), None);
    assert_eq!(npm_registry_url(&s, &no_overrides(), Region::Domestic), NPM_MIRROR_REGISTRY);
    let s = npm_setting(Some("Official"), None);
    assert_eq!(npm_registry_url(&s, &no_overrides(), Region::Domestic), NPM_MIRROR_REGISTRY);
}
