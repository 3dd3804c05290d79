//! Network acceleration for plugin installation: which npm registry and which
//! GitHub relay prefix the installs go through.
//!
//! The `auto` strategies follow the region: npmmirror and ghfast.top inside
//! mainland China, the official sources elsewhere. An override from
//! `desktop-config.json` comes before the region.

pub mod gh_mode;
pub mod npm_mode;

use crate::constants::DSH_MIRROR_PREFIX;
use crate::external::{ExternalConfig, ExternalConfigView};
use crate::region::Region;
use crate::setting::{Setting, SettingView};
use crate::text::{
    ensure_trailing_slash, opt_view, or_empty, same_text, string_or_empty, trim_white_space,
    trimmed, with_trailing_slash,
};
use vstd::prelude::*;
use vstd::string::*;

verus! {

/// The npmmirror registry.
pub const NPM_MIRROR_REGISTRY: &'static str = "https://registry.npmmirror.com/";

/// The generic ghproxy relay prefix (passes GitHub URLs through).
pub const GHPROXY_PREFIX: &'static str = "https://ghproxy.com/";

/// The official npm registry.
pub const OFFICIAL_NPM_REGISTRY: &'static str = "https://registry.npmjs.org/";

/// The registry of the `auto` strategy: the `npmRegistry` override when set,
/// else npmmirror inside mainland China and the official registry elsewhere.
pub open spec fn spec_auto_npm_registry(ext: ExternalConfigView, region: Region) -> Seq<char> {
    match ext.npm_registry {
        Some(url) => with_trailing_slash(url),
        None => match region {
            Region::Domestic => NPM_MIRROR_REGISTRY@,
            Region::Overseas => OFFICIAL_NPM_REGISTRY@,
        },
    }
}

/// The registry URL that plugin installs use under the settings `s`, the
/// overrides `ext` and the region `region`.
pub open spec fn spec_npm_registry_url(
    s: SettingView,
    ext: ExternalConfigView,
    region: Region,
) -> Seq<char> {
    let mode = s.npm_registry_mode;
    if mode == Some(npm_mode::OFFICIAL@) {
        OFFICIAL_NPM_REGISTRY@
    } else if mode == Some(npm_mode::NPM_MIRROR@) {
        NPM_MIRROR_REGISTRY@
    } else if mode == Some(npm_mode::CUSTOM@) {
        let url = trimmed(or_empty(s.npm_registry_custom));
        if url.len() == 0 {
            spec_auto_npm_registry(ext, region)
        } else {
            with_trailing_slash(url)
        }
    } else if mode == Some(npm_mode::GOVERNANCE@) {
        if ext.npm_registry is Some && trimmed(ext.npm_registry->0).len() > 0 {
            with_trailing_slash(trimmed(ext.npm_registry->0))
        } else {
            spec_auto_npm_registry(ext, region)
        }
    } else {
        spec_auto_npm_registry(ext, region)
    }
}

/// The ghfast.top relay prefix, or its `ghfastPrefix` override.
pub open spec fn spec_ghfast_prefix(ext: ExternalConfigView) -> Seq<char> {
    match ext.ghfast_prefix {
        Some(p) => with_trailing_slash(p),
        None => DSH_MIRROR_PREFIX@,
    }
}

/// The ghproxy relay prefix, or its `ghproxyPrefix` override.
pub open spec fn spec_ghproxy_prefix(ext: ExternalConfigView) -> Seq<char> {
    match ext.ghproxy_prefix {
        Some(p) => with_trailing_slash(p),
        None => GHPROXY_PREFIX@,
    }
}

/// The relay prefix of the `auto` strategy: the `ghMirrorPrefix` override
/// when set, else ghfast.top inside mainland China and none (direct) elsewhere.
pub open spec fn spec_auto_gh_prefix(ext: ExternalConfigView, region: Region) -> Option<Seq<char>> {
    match ext.gh_mirror_prefix {
        Some(p) => Some(with_trailing_slash(p)),
        None => match region {
            Region::Domestic => Some(spec_ghfast_prefix(ext)),
            Region::Overseas => None,
        },
    }
}

/// The GitHub relay prefix under the settings `s`, the overrides `ext` and the
/// region `region`; `None` means GitHub is reached directly.
pub open spec fn spec_gh_mirror_prefix(
    s: SettingView,
    ext: ExternalConfigView,
    region: Region,
) -> Option<Seq<char>> {
    let mode = s.gh_accel_mode;
    if mode == Some(gh_mode::NONE@) {
        None
    } else if mode == Some(gh_mode::GHFAST@) {
        Some(spec_ghfast_prefix(ext))
    } else if mode == Some(gh_mode::GHPROXY@) {
        Some(spec_ghproxy_prefix(ext))
    } else if mode == Some(gh_mode::CUSTOM@) {
        let prefix = trimmed(or_empty(s.gh_accel_custom));
        if prefix.len() == 0 {
            spec_auto_gh_prefix(ext, region)
        } else {
            Some(with_trailing_slash(prefix))
        }
    } else {
        spec_auto_gh_prefix(ext, region)
    }
}

/// The current npm registry URL, for the `.npmrc` and environment of plugin
/// installs. It ends with `/`. Under `auto`, and when no strategy was ever
/// chosen, it follows the override and the region; `official`, `npmmirror`
/// and `custom` are taken as chosen, and a blank custom URL falls back to
/// `auto`; `governance` takes the `npmRegistry` override and falls back to
/// `auto` while that is blank or absent.
pub fn npm_registry_url(setting: &Setting, ext: &ExternalConfig, region: Region) -> (url: String)
    ensures
        url@ == spec_npm_registry_url(setting@, ext@, region),
{
    if let Some(mode) = &setting.npm_registry_mode {
        if same_text(mode, npm_mode::OFFICIAL) {
            return String::from_str(OFFICIAL_NPM_REGISTRY);
        } else if same_text(mode, npm_mode::NPM_MIRROR) {
            return String::from_str(NPM_MIRROR_REGISTRY);
        } else if same_text(mode, npm_mode::CUSTOM) {
            let custom = string_or_empty(&setting.npm_registry_custom);
            let url = trim_white_space(custom.as_str());
            if url.is_empty() {
                // a custom strategy without a URL must not write an empty registry
                return auto_npm_registry(ext, region);
            } else {
                return ensure_trailing_slash(String::from_str(url));
            }
        } else if same_text(mode, npm_mode::GOVERNANCE) {
            if let Some(u) = &ext.npm_registry {
                let t = trim_white_space(u.as_str());
                if !t.is_empty() {
                    return ensure_trailing_slash(String::from_str(t));
                }
            }
            return auto_npm_registry(ext, region);
        }
    }
    auto_npm_registry(ext, region)
}

/// The registry of the `auto` strategy.
fn auto_npm_registry(ext: &ExternalConfig, region: Region) -> (url: String)
    ensures
        url@ == spec_auto_npm_registry(ext@, region),
{
    if let Some(url) = &ext.npm_registry {
        return ensure_trailing_slash(url.clone());
    }
    match region {
        Region::Domestic => String::from_str(NPM_MIRROR_REGISTRY),
        Region::Overseas => String::from_str(OFFICIAL_NPM_REGISTRY),
    }
}

/// The current GitHub relay prefix, such as `https://ghfast.top/`, which turns
/// `https://github.com/` into `{prefix}https://github.com/`; `None` means
/// GitHub is reached directly. Under `auto`, and when no strategy was ever
/// chosen, it follows the override and the region (ghfast.top inside mainland
/// China, direct elsewhere); a blank custom prefix falls back to `auto`.
pub fn gh_mirror_prefix(setting: &Setting, ext: &ExternalConfig, region: Region) -> (r: Option<String>)
    ensures
        opt_view(&r) == spec_gh_mirror_prefix(setting@, ext@, region),
{
    if let Some(mode) = &setting.gh_accel_mode {
        if same_text(mode, gh_mode::NONE) {
            return None;
        } else if same_text(mode, gh_mode::GHFAST) {
            return Some(ghfast_prefix(ext));
        } else if same_text(mode, gh_mode::GHPROXY) {
            return Some(ghproxy_prefix(ext));
        } else if same_text(mode, gh_mode::CUSTOM) {
            let custom = string_or_empty(&setting.gh_accel_custom);
            let prefix = trim_white_space(custom.as_str());
            if prefix.is_empty() {
                return auto_gh_prefix(ext, region);
            } else {
                return Some(ensure_trailing_slash(String::from_str(prefix)));
            }
        }
    }
    auto_gh_prefix(ext, region)
}

/// The relay prefix of the `auto` strategy.
fn auto_gh_prefix(ext: &ExternalConfig, region: Region) -> (r: Option<String>)
    ensures
        opt_view(&r) == spec_auto_gh_prefix(ext@, region),
{
    if let Some(prefix) = &ext.gh_mirror_prefix {
        return Some(ensure_trailing_slash(prefix.clone()));
    }
    match region {
        Region::Domestic => Some(ghfast_prefix(ext)),
        Region::Overseas => None,
    }
}

/// The ghfast.top relay prefix; `ghfastPrefix` of `desktop-config.json` replaces it.
fn ghfast_prefix(ext: &ExternalConfig) -> (r: String)
    ensures
        r@ == spec_ghfast_prefix(ext@),
{
    match &ext.ghfast_prefix {
        Some(p) => ensure_trailing_slash(p.clone()),
        None => String::from_str(DSH_MIRROR_PREFIX),
    }
}

/// The ghproxy relay prefix; `ghproxyPrefix` of `desktop-config.json` replaces it.
fn ghproxy_prefix(ext: &ExternalConfig) -> (r: String)
    ensures
        r@ == spec_ghproxy_prefix(ext@),
{
    match &ext.ghproxy_prefix {
        Some(p) => ensure_trailing_slash(p.clone()),
        None => String::from_str(GHPROXY_PREFIX),
    }
}


/// The acceleration settings as the front end shows them: the chosen
/// strategies, the custom values, and the registry URL and relay prefix in
/// effect (under `auto` these are the values resolved for the region).
#[derive(Debug, Clone)]
pub struct AccelConfig {
    /// npm registry strategy (`auto`/`official`/`npmmirror`/`custom`/`governance`).
    pub npm_registry_mode: String,
    /// Custom registry URL; may be empty outside the `custom` strategy.
    pub npm_registry_custom: String,
    /// The npm registry URL in effect (ends with `/`).
    pub npm_registry_url: String,
    /// GitHub relay strategy (`auto`/`none`/`ghfast`/`ghproxy`/`custom`).
    pub gh_accel_mode: String,
    /// Custom relay prefix; may be empty outside the `custom` strategy.
    pub gh_accel_custom: String,
    /// The relay prefix in effect; empty when GitHub is reached directly.
    pub gh_accel_prefix: String,
}

/// The acceleration settings with their texts as character sequences.
pub struct AccelConfigView {
    pub npm_registry_mode: Seq<char>,
    pub npm_registry_custom: Seq<char>,
    pub npm_registry_url: Seq<char>,
    pub gh_accel_mode: Seq<char>,
    pub gh_accel_custom: Seq<char>,
    pub gh_accel_prefix: Seq<char>,
}

impl View for AccelConfig {
    type V = AccelConfigView;

    open spec fn view(&self) -> AccelConfigView {
        AccelConfigView {
            npm_registry_mode: self.npm_registry_mode@,
            npm_registry_custom: self.npm_registry_custom@,
            npm_registry_url: self.npm_registry_url@,
            gh_accel_mode: self.gh_accel_mode@,
            gh_accel_custom: self.gh_accel_custom@,
            gh_accel_prefix: self.gh_accel_prefix@,
        }
    }
}

/// An optional text, or `default` when there is none.
pub open spec fn text_or(o: Option<Seq<char>>, default: Seq<char>) -> Seq<char> {
    match o {
        Some(t) => t,
        None => default,
    }
}

/// The acceleration view of the settings `s` under the overrides `ext` and
/// the region `region`; a strategy never chosen shows as `auto`.
pub open spec fn spec_accel_config(
    s: SettingView,
    ext: ExternalConfigView,
    region: Region,
) -> AccelConfigView {
    AccelConfigView {
        npm_registry_mode: text_or(s.npm_registry_mode, npm_mode::AUTO@),
        npm_registry_custom: or_empty(s.npm_registry_custom),
        npm_registry_url: spec_npm_registry_url(s, ext, region),
        gh_accel_mode: text_or(s.gh_accel_mode, gh_mode::AUTO@),
        gh_accel_custom: or_empty(s.gh_accel_custom),
        gh_accel_prefix: or_empty(spec_gh_mirror_prefix(s, ext, region)),
    }
}

/// A text, or the text `default` when there is none.
fn string_or(o: &Option<String>, default: &str) -> (r: String)
    ensures
        r@ == text_or(opt_view(o), default@),
{
    match o {
        Some(t) => t.clone(),
        None => String::from_str(default),
    }
}

impl AccelConfig {
    /// The settings in effect as the front end shows them; a strategy never
    /// chosen shows as `auto`.
    pub fn from_setting(setting: &Setting, ext: &ExternalConfig, region: Region) -> (cfg: AccelConfig)
        ensures
            cfg@ == spec_accel_config(setting@, ext@, region),
    {
        let resolved_npm_mode = string_or(&setting.npm_registry_mode, npm_mode::AUTO);
        let resolved_gh_mode = string_or(&setting.gh_accel_mode, gh_mode::AUTO);
        let gh_prefix = gh_mirror_prefix(setting, ext, region);
        AccelConfig {
            npm_registry_url: npm_registry_url(setting, ext, region),
            npm_registry_custom: string_or_empty(&setting.npm_registry_custom),
            npm_registry_mode: resolved_npm_mode,
            gh_accel_prefix: string_or_empty(&gh_prefix),
            gh_accel_custom: string_or_empty(&setting.gh_accel_custom),
            gh_accel_mode: resolved_gh_mode,
        }
    }
}

} // verus!
