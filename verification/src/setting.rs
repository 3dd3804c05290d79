//! The persisted settings record of the desktop shell.

use crate::constants::{DSH_DEV_PORT, DSH_PORT, STORE_DAT_DEV_FILE, STORE_DAT_FILE};
use crate::text::{copy_opt_string, opt_view};
use vstd::prelude::*;
use vstd::string::*;

verus! {

/// The settings record kept in the application store.
#[derive(Debug, Clone)]
pub struct Setting {
    pub installed: bool,
    pub port: u16,
    pub auto_start: bool,
    pub language: String,
    pub dsh_pkg_commit: Option<String>,
    /// GitHub release tag of the installed harness package, paired with
    /// `dsh_pkg_commit`.
    pub dsh_pkg_tag: Option<String>,
    /// Whether the `dsh` command is registered on the user's PATH.
    pub cli_link_enabled: bool,
    /// Whether the preset-plugin guide has been completed or skipped.
    pub preinstall_done: bool,
    /// Fingerprint of the preset-plugin list seen at the end of the last guide.
    pub preset_hash: Option<String>,
    /// Whether the old data directory has been migrated to `$DSH_HOME`.
    pub dsh_home_migrated: bool,
    /// Id of the profile in use (`$DSH_HOME/profiles/<id>`).
    pub active_profile: String,
    /// Explicit core choice: `local`, `app`, or automatic when absent.
    pub active_core: Option<String>,
    /// Port set by hand in the settings page; absent when never set.
    pub manual_port: Option<u16>,
    /// npm registry strategy: `auto`, `official`, `npmmirror`, `custom` or
    /// `governance`; absent means `auto`.
    pub npm_registry_mode: Option<String>,
    /// Registry URL used by the `custom` strategy.
    pub npm_registry_custom: Option<String>,
    /// GitHub relay strategy: `auto`, `none`, `ghfast`, `ghproxy` or
    /// `custom`; absent means `auto`.
    pub gh_accel_mode: Option<String>,
    /// Relay prefix used by the `custom` strategy.
    pub gh_accel_custom: Option<String>,
}

/// The settings record with its texts as character sequences.
pub struct SettingView {
    pub installed: bool,
    pub port: u16,
    pub auto_start: bool,
    pub language: Seq<char>,
    pub dsh_pkg_commit: Option<Seq<char>>,
    pub dsh_pkg_tag: Option<Seq<char>>,
    pub cli_link_enabled: bool,
    pub preinstall_done: bool,
    pub preset_hash: Option<Seq<char>>,
    pub dsh_home_migrated: bool,
    pub active_profile: Seq<char>,
    pub active_core: Option<Seq<char>>,
    pub manual_port: Option<u16>,
    pub npm_registry_mode: Option<Seq<char>>,
    pub npm_registry_custom: Option<Seq<char>>,
    pub gh_accel_mode: Option<Seq<char>>,
    pub gh_accel_custom: Option<Seq<char>>,
}

impl View for Setting {
    type V = SettingView;

    open spec fn view(&self) -> SettingView {
        SettingView {
            installed: self.installed,
            port: self.port,
            auto_start: self.auto_start,
            language: self.language@,
            dsh_pkg_commit: opt_view(&self.dsh_pkg_commit),
            dsh_pkg_tag: opt_view(&self.dsh_pkg_tag),
            cli_link_enabled: self.cli_link_enabled,
            preinstall_done: self.preinstall_done,
            preset_hash: opt_view(&self.preset_hash),
            dsh_home_migrated: self.dsh_home_migrated,
            active_profile: self.active_profile@,
            active_core: opt_view(&self.active_core),
            manual_port: self.manual_port,
            npm_registry_mode: opt_view(&self.npm_registry_mode),
            npm_registry_custom: opt_view(&self.npm_registry_custom),
            gh_accel_mode: opt_view(&self.gh_accel_mode),
            gh_accel_custom: opt_view(&self.gh_accel_custom),
        }
    }
}

/// The service port by default: debug builds use their own port so as not to
/// contend with a running release build.
pub open spec fn spec_default_port(debug_build: bool) -> u16 {
    if debug_build {
        DSH_DEV_PORT
    } else {
        DSH_PORT
    }
}

/// The settings record of a fresh installation.
pub open spec fn default_setting(debug_build: bool) -> SettingView {
    SettingView {
        installed: false,
        port: spec_default_port(debug_build),
        auto_start: true,
        language: "zh-CN"@,
        dsh_pkg_commit: None,
        dsh_pkg_tag: None,
        cli_link_enabled: true,
        preinstall_done: false,
        preset_hash: None,
        dsh_home_migrated: false,
        active_profile: "web"@,
        active_core: None,
        manual_port: None,
        npm_registry_mode: None,
        npm_registry_custom: None,
        gh_accel_mode: None,
        gh_accel_custom: None,
    }
}

/// The default profile: the built-in `web` profile.
pub fn default_active_profile() -> (r: String)
    ensures
        r@ == "web"@,
{
    String::from_str("web")
}

/// The command-line link is on by default.
pub fn default_cli_link_enabled() -> (r: bool)
    ensures
        r == true,
{
    true
}

/// The default service port of a debug build (`debug_build`) or a release build.
pub fn default_port(debug_build: bool) -> (p: u16)
    ensures
        p == spec_default_port(debug_build),
{
    if debug_build {
        DSH_DEV_PORT
    } else {
        DSH_PORT
    }
}

/// Name of the store file; debug and release builds keep separate files so
/// that their ports and install state do not leak into each other.
pub fn store_dat_file_name(debug_build: bool) -> (r: &'static str)
    ensures
        r@ == (if debug_build {
            STORE_DAT_DEV_FILE@
        } else {
            STORE_DAT_FILE@
        }),
{
    if debug_build {
        STORE_DAT_DEV_FILE
    } else {
        STORE_DAT_FILE
    }
}

impl Setting {
    /// The settings record of a fresh installation, for a debug build
    /// (`debug_build`) or a release build.
    pub fn default_for(debug_build: bool) -> (s: Setting)
        ensures
            s@ == default_setting(debug_build),
    {
        Setting {
            installed: false,
            port: default_port(debug_build),
            auto_start: true,
            language: String::from_str("zh-CN"),
            dsh_pkg_commit: None,
            dsh_pkg_tag: None,
            cli_link_enabled: default_cli_link_enabled(),
            preinstall_done: false,
            preset_hash: None,
            dsh_home_migrated: false,
            active_profile: default_active_profile(),
            active_core: None,
            manual_port: None,
            npm_registry_mode: None,
            npm_registry_custom: None,
            gh_accel_mode: None,
            gh_accel_custom: None,
        }
    }
}

/// Commit hash of the installed harness release, as recorded.
pub fn get_dsh_pkg_commit(setting: &Setting) -> (r: Option<String>)
    ensures
        opt_view(&r) == setting@.dsh_pkg_commit,
{
    copy_opt_string(&setting.dsh_pkg_commit)
}

/// Records the commit hash of the installed harness release.
pub fn set_dsh_pkg_commit(setting: &mut Setting, commit: String)
    ensures
        final(setting)@ == (SettingView { dsh_pkg_commit: Some(commit@), ..old(setting)@ }),
{
    setting.dsh_pkg_commit = Some(commit);
}

/// Release tag of the installed harness release, as recorded.
pub fn get_dsh_pkg_tag(setting: &Setting) -> (r: Option<String>)
    ensures
        opt_view(&r) == setting@.dsh_pkg_tag,
{
    copy_opt_string(&setting.dsh_pkg_tag)
}

/// Records the release tag of the installed harness release.
pub fn set_dsh_pkg_tag(setting: &mut Setting, tag: String)
    ensures
        final(setting)@ == (SettingView { dsh_pkg_tag: Some(tag@), ..old(setting)@ }),
{
    setting.dsh_pkg_tag = Some(tag);
}

} // verus!
